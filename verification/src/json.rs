//! JSON values, and their text form through `serde_json`.
use vstd::prelude::*;

use crate::error::NoteDeckError;
use crate::text;

verus! {

/// A JSON value. An object that was read from a text has its members in the
/// order of their names, each once; those that are set later come after them.
/// A number that is no integer of 64 bits is kept as its text.
#[derive(Debug, PartialEq)]
pub enum Json {
    Null,
    Bool(bool),
    Int(i64),
    UInt(u64),
    Decimal(String),
    Str(String),
    Array(Vec<Json>),
    Object(Vec<(String, Json)>),
}

/// The mathematical value of a [`Json`].
pub enum JsonV {
    Null,
    Bool(bool),
    Int(int),
    Decimal(Seq<char>),
    Str(Seq<char>),
    Array(Seq<JsonV>),
    Object(Seq<(Seq<char>, JsonV)>),
}

/// The values of a list.
pub open spec fn items_view(v: Seq<Json>) -> Seq<JsonV> {
    Seq::new(v.len(), |i: int| v[i]@)
}

/// The members of an object.
pub open spec fn members_view(v: Seq<(String, Json)>) -> Seq<(Seq<char>, JsonV)> {
    Seq::new(v.len(), |i: int| (v[i].0@, v[i].1@))
}

/// The position of the first member named `key`.
pub open spec fn position(es: Seq<(Seq<char>, JsonV)>, key: Seq<char>) -> Option<int>
    decreases es.len(),
{
    if es.len() == 0 {
        None
    } else {
        match position(es.drop_last(), key) {
            Some(i) => Some(i),
            None => if es.last().0 == key {
                Some(es.len() - 1)
            } else {
                None
            },
        }
    }
}

impl JsonV {
    /// The member named `key`, if this is an object that has one.
    pub open spec fn member(self, key: Seq<char>) -> Option<JsonV> {
        match self {
            JsonV::Object(es) => match position(es, key) {
                Some(i) => Some(es[i].1),
                None => None,
            },
            _ => None,
        }
    }

    /// This object with the member `key` set to `v`: in place where it is
    /// there already, at the end where it is not.
    pub open spec fn with(self, key: Seq<char>, v: JsonV) -> JsonV {
        match self {
            JsonV::Object(es) => match position(es, key) {
                Some(i) => JsonV::Object(es.update(i, (key, v))),
                None => JsonV::Object(es.push((key, v))),
            },
            _ => self,
        }
    }

    /// This object with the member `key` set to `v` where there is a `v`.
    pub open spec fn with_opt(self, key: Seq<char>, v: Option<JsonV>) -> JsonV {
        match v {
            Some(x) => self.with(key, x),
            None => self,
        }
    }

    /// The text, if this is a string.
    pub open spec fn text(self) -> Option<Seq<char>> {
        match self {
            JsonV::Str(s) => Some(s),
            _ => None,
        }
    }

    /// The items, if this is a list.
    pub open spec fn items(self) -> Option<Seq<JsonV>> {
        match self {
            JsonV::Array(v) => Some(v),
            _ => None,
        }
    }

    /// The truth value, if this is one.
    pub open spec fn truth(self) -> Option<bool> {
        match self {
            JsonV::Bool(b) => Some(b),
            _ => None,
        }
    }

    /// The number, if this is an integer that fits in 64 bits with a sign.
    pub open spec fn integer(self) -> Option<int> {
        match self {
            JsonV::Int(n) => if i64::MIN <= n <= i64::MAX {
                Some(n)
            } else {
                None
            },
            _ => None,
        }
    }

    /// Whether this is a list of strings alone.
    pub open spec fn is_str_list(self) -> bool {
        match self {
            JsonV::Array(v) => forall|i: int| 0 <= i < v.len() ==> (#[trigger] v[i]) is Str,
            _ => false,
        }
    }

    /// The text of the member `key`, if there is such a member and it is a
    /// string.
    pub open spec fn text_member(self, key: Seq<char>) -> Option<Seq<char>> {
        match self.member(key) {
            Some(v) => v.text(),
            None => None,
        }
    }
}

/// The object without members.
pub open spec fn empty_object() -> JsonV {
    JsonV::Object(Seq::empty())
}

/// An optional text as an optional JSON string.
pub open spec fn opt_str_json(o: Option<Seq<char>>) -> Option<JsonV> {
    match o {
        Some(s) => Some(JsonV::Str(s)),
        None => None,
    }
}

/// An optional truth value as an optional JSON value.
pub open spec fn opt_bool_json(o: Option<bool>) -> Option<JsonV> {
    match o {
        Some(b) => Some(JsonV::Bool(b)),
        None => None,
    }
}

/// An optional number as an optional JSON number.
pub open spec fn opt_int_json(o: Option<i64>) -> Option<JsonV> {
    match o {
        Some(n) => Some(JsonV::Int(n as int)),
        None => None,
    }
}

/// An optional value as its view.
pub open spec fn opt_json(o: Option<Json>) -> Option<JsonV> {
    match o {
        Some(j) => Some(j@),
        None => None,
    }
}

/// A list of texts as a JSON list of strings.
pub open spec fn str_list(v: Seq<Seq<char>>) -> JsonV {
    JsonV::Array(Seq::new(v.len(), |i: int| JsonV::Str(v[i])))
}

/// The strings among the items of a list, in order.
pub open spec fn strings_among(v: Seq<JsonV>) -> Seq<Seq<char>>
    decreases v.len(),
{
    if v.len() == 0 {
        Seq::empty()
    } else {
        match v.last() {
            JsonV::Str(s) => strings_among(v.drop_last()).push(s),
            _ => strings_among(v.drop_last()),
        }
    }
}

/// What `position` finds is the first member of that name, and it finds one
/// where there is one.
pub proof fn lemma_position(es: Seq<(Seq<char>, JsonV)>, key: Seq<char>)
    ensures
        match position(es, key) {
            Some(i) => 0 <= i < es.len() && es[i].0 == key && (forall|j: int|
                0 <= j < i ==> (#[trigger] es[j]).0 != key),
            None => forall|j: int| 0 <= j < es.len() ==> (#[trigger] es[j]).0 != key,
        },
    decreases es.len(),
{
    if es.len() > 0 {
        let d = es.drop_last();
        lemma_position(d, key);
        assert forall|j: int| 0 <= j < d.len() implies d[j] == es[j] by {}
        if let Some(i) = position(d, key) {
            assert(es[i] == d[i]);
            assert forall|j: int| 0 <= j < i implies (#[trigger] es[j]).0 != key by {
                assert(d[j].0 != key);
            }
        } else {
            assert forall|j: int| 0 <= j < es.len() - 1 implies (#[trigger] es[j]).0 != key by {
                assert(d[j].0 != key);
            }
        }
    }
}

proof fn lemma_position_of(es: Seq<(Seq<char>, JsonV)>, key: Seq<char>, i: int)
    requires
        0 <= i < es.len(),
        es[i].0 == key,
        forall|j: int| 0 <= j < i ==> (#[trigger] es[j]).0 != key,
    ensures
        position(es, key) == Some(i),
{
    lemma_position(es, key);
}

/// Setting a member is what a later reading sees, and no other member
/// changes.
pub proof fn lemma_with_member(o: JsonV, key: Seq<char>, v: JsonV, other: Seq<char>)
    requires
        o is Object,
    ensures
        o.with(key, v).member(key) == Some(v),
        other != key ==> o.with(key, v).member(other) == o.member(other),
{
    let es = o->Object_0;
    lemma_position(es, key);
    lemma_position(es, other);
    match position(es, key) {
        Some(i) => {
            let ns = es.update(i, (key, v));
            lemma_position(ns, key);
            lemma_position_of(ns, key, i);
            if other != key {
                lemma_position(ns, other);
                match position(es, other) {
                    Some(k) => {
                        assert forall|j: int| 0 <= j < k implies (#[trigger] ns[j]).0 != other by {
                            if j != i {
                                assert(ns[j] == es[j]);
                            }
                        }
                        lemma_position_of(ns, other, k);
                    },
                    None => {
                        if let Some(k) = position(ns, other) {
                            assert(es[k].0 != other);
                        }
                    },
                }
            }
        },
        None => {
            let ns = es.push((key, v));
            assert(ns.drop_last() =~= es);
        },
    }
}

/// Every reading of a member after one was set.
pub broadcast proof fn lemma_member_of_with(o: JsonV, key: Seq<char>, v: JsonV, other: Seq<char>)
    requires
        o is Object,
    ensures
        #[trigger] o.with(key, v).member(other) == if other == key {
            Some(v)
        } else {
            o.member(other)
        },
{
    lemma_with_member(o, key, v, other);
}

impl Json {
    pub open spec fn view(self) -> JsonV
        decreases self,
    {
        match self {
            Json::Null => JsonV::Null,
            Json::Bool(b) => JsonV::Bool(b),
            Json::Int(n) => JsonV::Int(n as int),
            Json::UInt(n) => JsonV::Int(n as int),
            Json::Decimal(s) => JsonV::Decimal(s@),
            Json::Str(s) => JsonV::Str(s@),
            Json::Array(v) => JsonV::Array(
                Seq::new(
                    v@.len(),
                    |i: int|
                        if 0 <= i < v@.len() {
                            v@[i].view()
                        } else {
                            JsonV::Null
                        },
                ),
            ),
            Json::Object(v) => JsonV::Object(
                Seq::new(
                    v@.len(),
                    |i: int|
                        if 0 <= i < v@.len() {
                            (v@[i].0@, v@[i].1.view())
                        } else {
                            (Seq::empty(), JsonV::Null)
                        },
                ),
            ),
        }
    }

    /// What is viewed as an object is one.
    pub proof fn lemma_object(self)
        ensures
            self@ is Object <==> self is Object,
    {
    }

    /// A list or an object is viewed item by item.
    pub proof fn lemma_view_parts(self)
        ensures
            self matches Json::Array(v) ==> self@ == JsonV::Array(items_view(v@)),
            self matches Json::Object(v) ==> self@ == JsonV::Object(members_view(v@)),
    {
        match self {
            Json::Array(v) => {
                assert(self@->Array_0 =~= items_view(v@));
            },
            Json::Object(v) => {
                assert(self@->Object_0 =~= members_view(v@));
            },
            _ => {},
        }
    }

    /// The object without members.
    pub fn object() -> (r: Json)
        ensures
            r@ == empty_object(),
    {
        let r = Json::Object(Vec::new());
        proof {
            r.lemma_view_parts();
            assert(members_view(Seq::<(String, Json)>::empty()) =~= Seq::empty());
        }
        r
    }

    /// A JSON string.
    pub fn text(s: &str) -> (r: Json)
        ensures
            r@ == JsonV::Str(s@),
    {
        Json::Str(s.to_owned())
    }

    /// A deep copy.
    pub fn copy(&self) -> (r: Json)
        ensures
            r@ == self@,
        decreases self,
    {
        match self {
            Json::Null => Json::Null,
            Json::Bool(b) => Json::Bool(*b),
            Json::Int(n) => Json::Int(*n),
            Json::UInt(n) => Json::UInt(*n),
            Json::Decimal(s) => Json::Decimal(s.clone()),
            Json::Str(s) => Json::Str(s.clone()),
            Json::Array(v) => {
                let mut out: Vec<Json> = Vec::new();
                let mut i: usize = 0;
                while i < v.len()
                    invariant
                        *self == Json::Array(*v),
                        0 <= i <= v@.len(),
                        out@.len() == i,
                        forall|k: int| 0 <= k < i ==> (#[trigger] out@[k])@ == v@[k]@,
                    decreases v@.len() - i,
                {
                    proof {
                        assert(decreases_to!(*self => self->Array_0));
                        assert(decreases_to!(*v => v@));
                        assert(decreases_to!(v@ => v@[i as int]));
                    }
                    out.push(v[i].copy());
                    i += 1;
                }
                let r = Json::Array(out);
                proof {
                    r.lemma_view_parts();
                    self.lemma_view_parts();
                    assert(items_view(out@) =~= items_view(v@));
                }
                r
            },
            Json::Object(v) => {
                let mut out: Vec<(String, Json)> = Vec::new();
                let mut i: usize = 0;
                while i < v.len()
                    invariant
                        *self == Json::Object(*v),
                        0 <= i <= v@.len(),
                        out@.len() == i,
                        forall|k: int|
                            0 <= k < i ==> (#[trigger] out@[k]).0@ == v@[k].0@ && out@[k].1@
                                == v@[k].1@,
                    decreases v@.len() - i,
                {
                    proof {
                        assert(decreases_to!(*self => self->Object_0));
                        assert(decreases_to!(*v => v@));
                        assert(decreases_to!(v@ => v@[i as int]));
                        assert(decreases_to!(v@[i as int] => v@[i as int].1));
                    }
                    out.push((v[i].0.clone(), v[i].1.copy()));
                    i += 1;
                }
                let r = Json::Object(out);
                proof {
                    r.lemma_view_parts();
                    self.lemma_view_parts();
                    assert(members_view(out@) =~= members_view(v@));
                }
                r
            },
        }
    }

    fn find(v: &Vec<(String, Json)>, key: &str) -> (r: Option<usize>)
        ensures
            match r {
                Some(i) => i < v@.len() && position(members_view(v@), key@) == Some(i as int),
                None => position(members_view(v@), key@) is None,
            },
    {
        let mut i: usize = 0;
        while i < v.len()
            invariant
                0 <= i <= v@.len(),
                forall|j: int| 0 <= j < i ==> (#[trigger] members_view(v@)[j]).0 != key@,
            decreases v@.len() - i,
        {
            if text::same(v[i].0.as_str(), key) {
                proof {
                    lemma_position_of(members_view(v@), key@, i as int);
                }
                return Some(i);
            }
            i += 1;
        }
        proof {
            lemma_position(members_view(v@), key@);
        }
        None
    }

    /// The member named `key`, if this is an object that has one.
    pub fn get(&self, key: &str) -> (r: Option<&Json>)
        ensures
            match r {
                Some(j) => self@.member(key@) == Some(j@),
                None => self@.member(key@) is None,
            },
    {
        proof {
            self.lemma_view_parts();
        }
        match self {
            Json::Object(v) => match Json::find(v, key) {
                Some(i) => Some(&v[i].1),
                None => None,
            },
            _ => None,
        }
    }

    /// Sets the member named `key` of this object.
    pub fn set(&mut self, key: &str, value: Json)
        requires
            (*old(self)) is Object,
        ensures
            (*final(self)) is Object,
            final(self)@ == old(self)@.with(key@, value@),
    {
        let ghost before = *self;
        match self {
            Json::Object(v) => {
                let ghost vs = v@;
                let found = Json::find(v, key);
                let entry = (key.to_owned(), value);
                let ghost e = entry;
                match found {
                    Some(i) => {
                        v.set(i, entry);
                        proof {
                            assert(members_view(vs.update(i as int, e)) =~= members_view(vs).update(
                                i as int,
                                (key@, value@),
                            ));
                        }
                    },
                    None => {
                        v.push(entry);
                        proof {
                            assert(members_view(vs.push(e)) =~= members_view(vs).push(
                                (key@, value@),
                            ));
                        }
                    },
                }
                proof {
                    before.lemma_view_parts();
                }
            },
            _ => {},
        }
        proof {
            self.lemma_view_parts();
        }
    }

    /// The text, if this is a string.
    pub fn as_str(&self) -> (r: Option<&str>)
        ensures
            match r {
                Some(s) => self@.text() == Some(s@),
                None => self@.text() is None,
            },
    {
        match self {
            Json::Str(s) => Some(s.as_str()),
            _ => None,
        }
    }

    /// The items, if this is a list.
    pub fn as_array(&self) -> (r: Option<&Vec<Json>>)
        ensures
            match r {
                Some(v) => self@.items() == Some(items_view(v@)),
                None => self@.items() is None,
            },
    {
        proof {
            self.lemma_view_parts();
        }
        match self {
            Json::Array(v) => Some(v),
            _ => None,
        }
    }

    /// The members, if this is an object.
    pub fn as_object(&self) -> (r: Option<&Vec<(String, Json)>>)
        ensures
            match r {
                Some(v) => self@ == JsonV::Object(members_view(v@)),
                None => !(self@ is Object),
            },
    {
        proof {
            self.lemma_view_parts();
        }
        match self {
            Json::Object(v) => Some(v),
            _ => None,
        }
    }

    /// The truth value, if this is one.
    pub fn as_bool(&self) -> (r: Option<bool>)
        ensures
            r == self@.truth(),
    {
        match self {
            Json::Bool(b) => Some(*b),
            _ => None,
        }
    }

    /// The number, if this is an integer that fits in 64 bits with a sign.
    pub fn as_i64(&self) -> (r: Option<i64>)
        ensures
            match r {
                Some(n) => self@.integer() == Some(n as int),
                None => self@.integer() is None,
            },
    {
        match self {
            Json::Int(n) => Some(*n),
            Json::UInt(n) => if *n <= 9223372036854775807 {
                Some(*n as i64)
            } else {
                None
            },
            _ => None,
        }
    }

    /// Whether this is `null`.
    pub fn is_null(&self) -> (r: bool)
        ensures
            r == (self@ is Null),
    {
        match self {
            Json::Null => true,
            _ => false,
        }
    }

    /// The text of the member `key`, if there is such a member and it is a
    /// string.
    pub fn str_at(&self, key: &str) -> (r: Option<&str>)
        ensures
            match r {
                Some(s) => self@.text_member(key@) == Some(s@),
                None => self@.text_member(key@) is None,
            },
    {
        match self.get(key) {
            Some(v) => v.as_str(),
            None => None,
        }
    }

    /// The strings among the items of `v`, in order.
    pub fn strings_in(v: &Vec<Json>) -> (r: Vec<String>)
        ensures
            text::texts(r@) == strings_among(items_view(v@)),
    {
        let mut out: Vec<String> = Vec::new();
        let mut i: usize = 0;
        proof {
            assert(items_view(v@).take(0) =~= Seq::empty());
            assert(text::texts(out@) =~= Seq::empty());
        }
        while i < v.len()
            invariant
                0 <= i <= v@.len(),
                text::texts(out@) == strings_among(items_view(v@).take(i as int)),
            decreases v@.len() - i,
        {
            let ghost all = items_view(v@);
            proof {
                assert(all.take(i + 1).drop_last() =~= all.take(i as int));
                assert(all.take(i + 1).last() == v@[i as int]@);
            }
            if let Some(s) = v[i].as_str() {
                let ghost before = out@;
                let owned = s.to_owned();
                out.push(owned);
                proof {
                    assert(text::texts(before.push(owned)) =~= text::texts(before).push(owned@));
                }
            }
            i += 1;
        }
        proof {
            assert(items_view(v@).take(v@.len() as int) =~= items_view(v@));
        }
        out
    }

    /// A JSON list of strings.
    pub fn list_of(v: &[String]) -> (r: Json)
        ensures
            r@ == str_list(text::texts(v@)),
    {
        let mut out: Vec<Json> = Vec::new();
        let mut i: usize = 0;
        while i < v.len()
            invariant
                0 <= i <= v@.len(),
                out@.len() == i,
                forall|k: int| 0 <= k < i ==> (#[trigger] out@[k])@ == JsonV::Str(v@[k]@),
            decreases v@.len() - i,
        {
            out.push(Json::Str(v[i].clone()));
            i += 1;
        }
        let r = Json::Array(out);
        proof {
            r.lemma_view_parts();
            assert(items_view(out@) =~= str_list(text::texts(v@))->Array_0);
        }
        r
    }

    /// Sets the member `key` to the string `value`.
    pub fn set_str(&mut self, key: &str, value: &str)
        requires
            (*old(self)) is Object,
        ensures
            (*final(self)) is Object,
            final(self)@ == old(self)@.with(key@, JsonV::Str(value@)),
    {
        self.set(key, Json::text(value));
    }

    /// Sets the member `key` to a number.
    pub fn set_int(&mut self, key: &str, value: i64)
        requires
            (*old(self)) is Object,
        ensures
            (*final(self)) is Object,
            final(self)@ == old(self)@.with(key@, JsonV::Int(value as int)),
    {
        self.set(key, Json::Int(value));
    }

    /// Sets the member `key` to a truth value.
    pub fn set_bool(&mut self, key: &str, value: bool)
        requires
            (*old(self)) is Object,
        ensures
            (*final(self)) is Object,
            final(self)@ == old(self)@.with(key@, JsonV::Bool(value)),
    {
        self.set(key, Json::Bool(value));
    }

    /// Sets the member `key` to a string where there is one.
    pub fn set_opt_str(&mut self, key: &str, value: Option<&str>)
        requires
            (*old(self)) is Object,
        ensures
            (*final(self)) is Object,
            final(self)@ == old(self)@.with_opt(key@, opt_str_json(text::opt_str(value))),
    {
        match value {
            Some(v) => self.set_str(key, v),
            None => {},
        }
    }

    /// Sets the member `key` to a string where there is one.
    pub fn set_opt_string(&mut self, key: &str, value: &Option<String>)
        requires
            (*old(self)) is Object,
        ensures
            (*final(self)) is Object,
            final(self)@ == old(self)@.with_opt(key@, opt_str_json(text::opt_text(*value))),
    {
        match value {
            Some(v) => self.set_str(key, v.as_str()),
            None => {},
        }
    }

    /// Sets the member `key` to a truth value where there is one.
    pub fn set_opt_bool(&mut self, key: &str, value: Option<bool>)
        requires
            (*old(self)) is Object,
        ensures
            (*final(self)) is Object,
            final(self)@ == old(self)@.with_opt(key@, opt_bool_json(value)),
    {
        match value {
            Some(v) => self.set_bool(key, v),
            None => {},
        }
    }

    /// Sets the member `key` to a number where there is one.
    pub fn set_opt_int(&mut self, key: &str, value: Option<i64>)
        requires
            (*old(self)) is Object,
        ensures
            (*final(self)) is Object,
            final(self)@ == old(self)@.with_opt(key@, opt_int_json(value)),
    {
        match value {
            Some(v) => self.set_int(key, v),
            None => {},
        }
    }

    /// Sets the member `key` to a copy of `value` where there is one.
    pub fn set_opt_json(&mut self, key: &str, value: &Option<Json>)
        requires
            (*old(self)) is Object,
        ensures
            (*final(self)) is Object,
            final(self)@ == old(self)@.with_opt(key@, opt_json(*value)),
    {
        match value {
            Some(v) => self.set(key, v.copy()),
            None => {},
        }
    }

    /// The value that `text` denotes, or the error of the JSON reader.
    pub fn parse(text: &str) -> (r: Result<Json, NoteDeckError>)
        ensures
            match r {
                Ok(j) => parsed_json(text@) == Some(j@),
                Err(e) => parsed_json(text@) is None && e is Json,
            },
    {
        match parse_json(text) {
            Ok(j) => Ok(j),
            Err(e) => Err(NoteDeckError::Json(e)),
        }
    }

    /// The text of this value.
    pub fn render(&self) -> (r: String)
        ensures
            r@ == rendered_json(self@),
    {
        render_json(self)
    }

    /// The error of the JSON reader where a list is wanted and this is none.
    pub fn not_a_list(&self) -> (r: NoteDeckError)
        requires
            !(self@ is Array),
        ensures
            r is Json,
    {
        NoteDeckError::Json(list_error(self))
    }

    /// The strings of a list of strings alone, or the error of the JSON
    /// reader.
    pub fn string_list(&self) -> (r: Result<Vec<String>, NoteDeckError>)
        ensures
            match r {
                Ok(v) => self@.is_str_list() && self@ == str_list(text::texts(v@)),
                Err(e) => !self@.is_str_list() && e is Json,
            },
    {
        match decode_string_list(self) {
            Ok(v) => Ok(v),
            Err(e) => Err(NoteDeckError::Json(e)),
        }
    }
}

// ---------------------------------------------------------------------------
// Text form
// ---------------------------------------------------------------------------

/// The tree of `serde_json`.
#[verifier::external_type_specification]
#[verifier::external_body]
pub struct ExValue(serde_json::Value);

/// The value that `serde_json::from_str` reads from a text; `None` where it
/// refuses the text.
pub uninterp spec fn parsed_json(text: Seq<char>) -> Option<JsonV>;

/// The text that `serde_json` writes for a value, without white space.
pub uninterp spec fn rendered_json(value: JsonV) -> Seq<char>;

/// Turns a `serde_json::Value` into a [`Json`], variant by variant. An integer
/// becomes a number, any other number its text. Nothing is claimed of it: the
/// tree that goes in is opaque.
#[verifier::external_body]
fn from_value(v: serde_json::Value) -> (r: Json)
{
    match v {
        serde_json::Value::Null => Json::Null,
        serde_json::Value::Bool(b) => Json::Bool(b),
        serde_json::Value::Number(n) => match (n.as_i64(), n.as_u64()) {
            (Some(i), _) => Json::Int(i),
            (None, Some(u)) => Json::UInt(u),
            (None, None) => Json::Decimal(n.to_string()),
        },
        serde_json::Value::String(s) => Json::Str(s),
        serde_json::Value::Array(a) => Json::Array(a.into_iter().map(from_value).collect()),
        serde_json::Value::Object(o) => Json::Object(o.into_iter().map(|(k, x)| (k, from_value(x))).collect()),
    }
}

/// Turns a [`Json`] into a `serde_json::Value`, variant by variant. Nothing is
/// claimed of it: the tree that comes out is opaque.
#[verifier::external_body]
fn to_value(j: &Json) -> (r: serde_json::Value)
{
    match j {
        Json::Null => serde_json::Value::Null,
        Json::Bool(b) => serde_json::Value::Bool(*b),
        Json::Int(n) => serde_json::Value::from(*n),
        Json::UInt(n) => serde_json::Value::from(*n),
        Json::Decimal(s) => s.parse().map_or(serde_json::Value::Null, serde_json::Value::Number),
        Json::Str(s) => serde_json::Value::String(s.clone()),
        Json::Array(v) => serde_json::Value::Array(v.iter().map(to_value).collect()),
        Json::Object(v) => serde_json::Value::Object(v.iter().map(|(k, x)| (k.clone(), to_value(x))).collect()),
    }
}

/// `serde_json::from_str` into a `serde_json::Value`: what it reads from a text
/// has the name [`parsed_json`], and it gives an error where there is no such
/// value.
#[verifier::external_body]
fn parse_json(text: &str) -> (r: Result<Json, serde_json::Error>)
    ensures
        match r {
            Ok(j) => parsed_json(text@) == Some(j@),
            Err(_) => parsed_json(text@) is None,
        },
{
    serde_json::from_str::<serde_json::Value>(text).map(from_value)
}

/// `serde_json::Value::to_string`: what it writes for a value has the name
/// [`rendered_json`].
#[verifier::external_body]
fn render_json(j: &Json) -> (r: String)
    ensures
        r@ == rendered_json(j@),
{
    to_value(j).to_string()
}

/// The error that `serde_json::from_value` gives where a list is wanted and
/// something else is there. Nothing is claimed of the error itself.
#[verifier::external_body]
fn list_error(j: &Json) -> (r: serde_json::Error)
    requires
        !(j@ is Array),
{
    serde_json::from_value::<Vec<serde_json::Value>>(to_value(j)).unwrap_err()
}

/// `serde_json::from_value` into a `Vec<String>`: it succeeds on a list whose
/// items are all strings, with those strings, and on nothing else.
#[verifier::external_body]
fn decode_string_list(j: &Json) -> (r: Result<Vec<String>, serde_json::Error>)
    ensures
        match r {
            Ok(v) => j@.is_str_list() && j@ == str_list(text::texts(v@)),
            Err(_) => !j@.is_str_list(),
        },
{
    serde_json::from_value::<Vec<String>>(to_value(j))
}

/// What is read of an object: the member of that name and no other. What is no object
/// has none. A list of texts is a list of strings, in order.
pub proof fn law_members_are_found_by_name(
    o: JsonV,
    key: Seq<char>,
    v: JsonV,
    other: Seq<char>,
    names: Seq<Seq<char>>,
    i: int,
)
    ensures
        o is Object ==> o.with(key, v).member(key) == Some(v),
        o is Object && other != key ==> o.with(key, v).member(other) == o.member(other),
        o is Object ==> o.with_opt(key, None) == o && o.with_opt(key, Some(v)) == o.with(key, v),
        !(o is Object) ==> o.member(key) is None,
        JsonV::Object(Seq::empty()).member(key) is None,
        o.text_member(key) == match o.member(key) {
            Some(JsonV::Str(s)) => Some(s),
            _ => None,
        },
        str_list(names) matches JsonV::Array(items) && items.len() == names.len() && (0 <= i
            < names.len() ==> items[i] == JsonV::Str(names[i])),
        str_list(names).is_str_list(),
        o.is_str_list() ==> (o matches JsonV::Array(items) && (0 <= i < items.len()
            ==> items[i] is Str)),
{
    if o is Object {
        lemma_with_member(o, key, v, other);
    }
}

} // verus!

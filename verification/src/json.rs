//! JSON documents as plain values, and what is read from them and written to them.

use vstd::prelude::*;

use crate::text::same_text;

verus! {

/// The outside type of a JSON document.
#[verifier::external_type_specification]
#[verifier::external_body]
pub struct ExValue(serde_json::Value);

/// The outside type of a JSON number.
#[verifier::external_type_specification]
#[verifier::external_body]
pub struct ExNumber(serde_json::Number);

/// A JSON number that is no integer of 64 bits, carried through as it was read.
#[derive(Debug)]
pub struct Fraction {
    number: serde_json::Number,
}

/// A JSON document. An object lists its members; of two members with one name the
/// later one counts.
#[derive(Debug)]
pub enum Json {
    Null,
    Bool(bool),
    Int(i64),
    Large(u64),
    Fraction(Fraction),
    Str(String),
    Arr(Vec<Json>),
    Obj(Vec<(String, Json)>),
}

/// What a document says, whatever the order of the members of its objects.
pub enum JsonV {
    Null,
    Bool(bool),
    Int(int),
    Fraction(serde_json::Number),
    Str(Seq<char>),
    Arr(Seq<JsonV>),
    Obj(Map<Seq<char>, JsonV>),
}

impl Fraction {
    pub closed spec fn spec_number(self) -> serde_json::Number {
        self.number
    }

    /// The number as it was read.
    pub fn number(&self) -> (r: &serde_json::Number)
        ensures
            *r == self.spec_number(),
    {
        &self.number
    }
}

/// The items of a list, one by one.
pub open spec fn items_of(items: Seq<Json>) -> Seq<JsonV>
    decreases items,
{
    if items.len() == 0 {
        Seq::empty()
    } else {
        items_of(items.drop_last()).push(tree_of(items.last()))
    }
}

/// The members of an object: a later one replaces an earlier one of its name.
pub open spec fn members_of(members: Seq<(String, Json)>) -> Map<Seq<char>, JsonV>
    decreases members,
{
    if members.len() == 0 {
        Map::empty()
    } else {
        members_of(members.drop_last()).insert(members.last().0@, tree_of(members.last().1))
    }
}

pub open spec fn tree_of(json: Json) -> JsonV
    decreases json,
{
    match json {
        Json::Null => JsonV::Null,
        Json::Bool(b) => JsonV::Bool(b),
        Json::Int(n) => JsonV::Int(n as int),
        Json::Large(n) => JsonV::Int(n as int),
        Json::Fraction(f) => JsonV::Fraction(f.spec_number()),
        Json::Str(s) => JsonV::Str(s@),
        Json::Arr(items) => JsonV::Arr(items_of(items@)),
        Json::Obj(members) => JsonV::Obj(members_of(members@)),
    }
}

impl View for Json {
    type V = JsonV;

    open spec fn view(&self) -> JsonV {
        tree_of(*self)
    }
}

/// What a reference to a document shows, where there is one.
pub open spec fn seen(json: Option<&Json>) -> Option<JsonV> {
    match json {
        Some(j) => Some(j@),
        None => None,
    }
}

/// The characters of a text, where there is one.
pub open spec fn chars_in(text: Option<&str>) -> Option<Seq<char>> {
    match text {
        Some(t) => Some(t@),
        None => None,
    }
}

/// The characters of an owned text, where there is one.
pub open spec fn owned_chars(text: Option<String>) -> Option<Seq<char>> {
    match text {
        Some(t) => Some(t@),
        None => None,
    }
}

impl JsonV {
    /// The member of that name, where the document is an object that has one.
    pub open spec fn member(self, name: Seq<char>) -> Option<JsonV> {
        match self {
            JsonV::Obj(members) => if members.contains_key(name) {
                Some(members[name])
            } else {
                None
            },
            _ => None,
        }
    }

    /// The member of that name; `Null` where there is none.
    pub open spec fn get(self, name: Seq<char>) -> JsonV {
        match self.member(name) {
            Some(v) => v,
            None => JsonV::Null,
        }
    }

    /// The item at that place; `Null` where there is none.
    pub open spec fn at(self, place: nat) -> JsonV {
        match self {
            JsonV::Arr(items) => if place < items.len() {
                items[place as int]
            } else {
                JsonV::Null
            },
            _ => JsonV::Null,
        }
    }

    pub open spec fn text(self) -> Option<Seq<char>> {
        match self {
            JsonV::Str(s) => Some(s),
            _ => None,
        }
    }

    /// The characters of a text; none where the document is no text.
    pub open spec fn text_or_empty(self) -> Seq<char> {
        match self {
            JsonV::Str(s) => s,
            _ => Seq::empty(),
        }
    }

    /// The integer that the document is, where it fits in 64 bits with a sign.
    pub open spec fn integer(self) -> Option<int> {
        match self {
            JsonV::Int(n) => if i64::MIN <= n <= i64::MAX {
                Some(n)
            } else {
                None
            },
            _ => None,
        }
    }

    pub open spec fn flag(self) -> Option<bool> {
        match self {
            JsonV::Bool(b) => Some(b),
            _ => None,
        }
    }

    /// Whether members can be written: an object, or `Null`, which counts as an empty one.
    pub open spec fn takes_members(self) -> bool {
        self is Obj || self is Null
    }

    /// The document with that member written; every other member is as it was.
    pub open spec fn with(self, name: Seq<char>, value: JsonV) -> JsonV {
        match self {
            JsonV::Obj(members) => JsonV::Obj(members.insert(name, value)),
            _ => JsonV::Obj(map![name => value]),
        }
    }

    /// Whether each fraction in the document is one that is read back as it was from what is
    /// written of it, and objects and lists lie within each other at most `room` deep.
    pub open spec fn plain(self, room: nat) -> bool
        decreases room,
    {
        match self {
            JsonV::Fraction(_) => reads_as(compact_text(self), self),
            JsonV::Arr(items) => room > 0 && forall|i: int|
                0 <= i < items.len() ==> (#[trigger] items[i]).plain((room - 1) as nat),
            JsonV::Obj(members) => room > 0 && forall|k: Seq<char>| #[trigger]
                members.contains_key(k) ==> members[k].plain((room - 1) as nat),
            _ => true,
        }
    }
}

proof fn lemma_items_of(items: Seq<Json>)
    ensures
        items_of(items).len() == items.len(),
        forall|i: int| 0 <= i < items.len() ==> #[trigger] items_of(items)[i] == tree_of(items[i]),
    decreases items.len(),
{
    if items.len() > 0 {
        lemma_items_of(items.drop_last());
    }
}

/// Without one of its members an object differs at most at that member's name.
proof fn lemma_members_without(members: Seq<(String, Json)>, at: int)
    requires
        0 <= at < members.len(),
    ensures
        members_of(members.remove(at)).remove(members[at].0@) == members_of(members).remove(
            members[at].0@,
        ),
    decreases members.len(),
{
    let name = members[at].0@;
    let last = members.last();
    if at == members.len() - 1 {
        assert(members.remove(at) == members.drop_last());
        assert(members_of(members).remove(name) == members_of(members.drop_last()).remove(name));
    } else {
        lemma_members_without(members.drop_last(), at);
        assert(members.remove(at).drop_last() == members.drop_last().remove(at));
        let rest = members_of(members.drop_last().remove(at));
        let full = members_of(members.drop_last());
        if last.0@ == name {
            assert(rest.insert(name, last.1@).remove(name) == rest.remove(name));
            assert(full.insert(name, last.1@).remove(name) == full.remove(name));
        } else {
            assert(rest.insert(last.0@, last.1@).remove(name) == rest.remove(name).insert(
                last.0@,
                last.1@,
            ));
            assert(full.insert(last.0@, last.1@).remove(name) == full.remove(name).insert(
                last.0@,
                last.1@,
            ));
        }
    }
}

/// The place of the member of that name that counts.
fn place_of(members: &Vec<(String, Json)>, name: &str) -> (r: Option<usize>)
    ensures
        match r {
            Some(i) => i < members@.len() && members@[i as int].0@ == name@ && members_of(
                members@,
            ).contains_key(name@) && members_of(members@)[name@] == members@[i as int].1@,
            None => !members_of(members@).contains_key(name@),
        },
{
    let mut i: usize = members.len();
    assert(members@.take(i as int) == members@);
    while i > 0
        invariant
            i <= members@.len(),
            members_of(members@.take(i as int)).contains_key(name@) == members_of(
                members@,
            ).contains_key(name@),
            members_of(members@).contains_key(name@) ==> members_of(members@.take(i as int))[name@]
                == members_of(members@)[name@],
        decreases i,
    {
        i = i - 1;
        assert(members@.take(i + 1).drop_last() == members@.take(i as int));
        assert(members@.take(i + 1).last() == members@[i as int]);
        if same_text(members[i].0.as_str(), name) {
            return Some(i);
        }
    }
    None
}

impl Json {
    /// The member of that name, where the document is an object that has one.
    pub fn member(&self, name: &str) -> (r: Option<&Json>)
        ensures
            seen(r) == self@.member(name@),
    {
        match self {
            Json::Obj(members) => match place_of(members, name) {
                Some(i) => Some(&members[i].1),
                None => None,
            },
            _ => None,
        }
    }

    /// The item at that place, where the document is a list that reaches so far.
    pub fn item(&self, place: usize) -> (r: Option<&Json>)
        ensures
            (match seen(r) {
                Some(v) => v,
                None => JsonV::Null,
            }) == self@.at(place as nat),
    {
        match self {
            Json::Arr(items) => {
                proof {
                    lemma_items_of(items@);
                }
                if place < items.len() {
                    Some(&items[place])
                } else {
                    None
                }
            },
            _ => None,
        }
    }

    pub fn as_str(&self) -> (r: Option<&str>)
        ensures
            chars_in(r) == self@.text(),
    {
        match self {
            Json::Str(s) => Some(s.as_str()),
            _ => None,
        }
    }

    pub fn as_i64(&self) -> (r: Option<i64>)
        ensures
            match r {
                Some(n) => self@.integer() == Some(n as int),
                None => self@.integer() is None,
            },
    {
        match self {
            Json::Int(n) => Some(*n),
            Json::Large(n) => if *n <= 0x7fff_ffff_ffff_ffff {
                Some(*n as i64)
            } else {
                None
            },
            _ => None,
        }
    }

    pub fn as_bool(&self) -> (r: Option<bool>)
        ensures
            r == self@.flag(),
    {
        match self {
            Json::Bool(b) => Some(*b),
            _ => None,
        }
    }

    pub fn is_null(&self) -> (r: bool)
        ensures
            r == (self@ is Null),
    {
        match self {
            Json::Null => true,
            _ => false,
        }
    }

    /// The text of the member of that name, where it is one.
    pub fn text_at(&self, name: &str) -> (r: Option<&str>)
        ensures
            chars_in(r) == self@.get(name@).text(),
    {
        match self.member(name) {
            Some(j) => j.as_str(),
            None => None,
        }
    }

    /// The member of that name alone; `Null` where there is none.
    pub fn into_member(self, name: &str) -> (r: Json)
        ensures
            r@ == self@.get(name@),
    {
        match self {
            Json::Obj(members) => {
                let mut members: Vec<(String, Json)> = members;
                match place_of(&members, name) {
                    Some(i) => members.remove(i).1,
                    None => Json::Null,
                }
            },
            _ => Json::Null,
        }
    }

    /// Takes the member of that name out of the document, to be written again.
    fn take(self, name: &str) -> (r: (Json, Json))
        requires
            self@.takes_members(),
        ensures
            r.0@.takes_members(),
            r.1@ == self@.get(name@),
            forall|v: JsonV| r.0@.with(name@, v) == #[trigger] self@.with(name@, v),
    {
        match self {
            Json::Obj(members) => {
                let mut members: Vec<(String, Json)> = members;
                let ghost before = members_of(members@);
                match place_of(&members, name) {
                    Some(i) => {
                        proof {
                            lemma_members_without(members@, i as int);
                        }
                        let (_, member) = members.remove(i);
                        let ghost after = members_of(members@);
                        assert forall|v: JsonV| after.insert(name@, v) == #[trigger] before.insert(
                            name@,
                            v,
                        ) by {
                            assert(after.insert(name@, v) == after.remove(name@).insert(name@, v));
                            assert(before.insert(name@, v) == before.remove(name@).insert(name@, v));
                        }
                        (Json::Obj(members), member)
                    },
                    None => (Json::Obj(members), Json::Null),
                }
            },
            _ => (Json::Null, Json::Null),
        }
    }

    /// The document with that member written.
    pub fn set(self, name: &str, value: Json) -> (r: Json)
        requires
            self@.takes_members(),
        ensures
            r@ == self@.with(name@, value@),
    {
        let (rest, _) = self.take(name);
        let ghost v = value@;
        assert(rest@.with(name@, v) == self@.with(name@, v));
        let mut members: Vec<(String, Json)> = match rest {
            Json::Obj(members) => members,
            _ => Vec::new(),
        };
        let ghost kept = members@;
        members.push((name.to_owned(), value));
        proof {
            assert(members@.drop_last() == kept);
            assert(members_of(members@) == members_of(kept).insert(name@, v));
            if rest@ is Null {
                assert(kept.len() == 0);
                assert(members_of(kept).insert(name@, v) == map![name@ => v]);
            }
        }
        Json::Obj(members)
    }

    /// The document with the member `inner` of its member `outer` written.
    pub fn set_in(self, outer: &str, inner: &str, value: Json) -> (r: Json)
        requires
            self@.takes_members(),
            self@.get(outer@).takes_members(),
        ensures
            r@ == self@.with(outer@, self@.get(outer@).with(inner@, value@)),
    {
        let (rest, member) = self.take(outer);
        let member = member.set(inner, value);
        assert(rest@.with(outer@, member@) == self@.with(outer@, member@));
        rest.set(outer, member)
    }
}

/// What the outside document says.
pub uninterp spec fn value_tree(value: serde_json::Value) -> JsonV;

/// What `serde_json::from_str` makes of a text: the document, or the words of its error.
pub uninterp spec fn parsed_text(text: Seq<char>) -> Result<JsonV, Seq<char>>;

/// What `serde_json::from_slice` makes of bytes: the document, or the words of its error.
pub uninterp spec fn parsed_bytes(bytes: Seq<u8>) -> Result<JsonV, Seq<char>>;

/// The text without spaces that `serde_json` writes for a document.
pub uninterp spec fn compact_text(json: JsonV) -> Seq<char>;

/// Whether that document is read from the text.
pub open spec fn reads_as(text: Seq<char>, json: JsonV) -> bool {
    parsed_text(text) == Ok::<JsonV, Seq<char>>(json)
}

/// Objects and lists may lie this deep within each other in a text that is read.
pub const MAX_DEPTH: u8 = 127;

pub open spec fn outside_parse(r: Result<serde_json::Value, String>) -> Result<JsonV, Seq<char>> {
    match r {
        Ok(v) => Ok(value_tree(v)),
        Err(e) => Err(e@),
    }
}

/// The outcome of reading a document.
pub open spec fn read_outcome(r: Result<Json, String>) -> Result<JsonV, Seq<char>> {
    match r {
        Ok(j) => Ok(j@),
        Err(e) => Err(e@),
    }
}

/// Takes a `serde_json::Value` apart, variant by variant: the document says what the value
/// says. A `serde_json::Number` that is no integer is kept whole.
#[verifier::external_body]
fn json_of_value(value: serde_json::Value) -> (r: Json)
    ensures
        r@ == value_tree(value),
{
    match value {
        serde_json::Value::Null => Json::Null,
        serde_json::Value::Bool(b) => Json::Bool(b),
        serde_json::Value::Number(n) => match (n.as_i64(), n.as_u64()) {
            (Some(i), _) => Json::Int(i),
            (None, Some(u)) => Json::Large(u),
            (None, None) => Json::Fraction(Fraction { number: n }),
        },
        serde_json::Value::String(s) => Json::Str(s),
        serde_json::Value::Array(a) => Json::Arr(a.into_iter().map(json_of_value).collect()),
        serde_json::Value::Object(m) => {
            Json::Obj(m.into_iter().map(|(k, v)| (k, json_of_value(v))).collect())
        },
    }
}

/// Builds a `serde_json::Value`, variant by variant: the value says what the document says.
/// Members go into a `serde_json::Map` by `insert`, in order, so of two with one name the later
/// one replaces the value of the earlier one.
#[verifier::external_body]
fn value_of_json(json: Json) -> (r: serde_json::Value)
    ensures
        value_tree(r) == json@,
{
    match json {
        Json::Null => serde_json::Value::Null,
        Json::Bool(b) => serde_json::Value::Bool(b),
        Json::Int(i) => serde_json::Value::from(i),
        Json::Large(u) => serde_json::Value::from(u),
        Json::Fraction(f) => serde_json::Value::Number(f.number),
        Json::Str(s) => serde_json::Value::String(s),
        Json::Arr(a) => serde_json::Value::Array(a.into_iter().map(value_of_json).collect()),
        Json::Obj(m) => {
            let mut map = serde_json::Map::new();
            m.into_iter().for_each(|(k, v)| drop(map.insert(k, value_of_json(v))));
            serde_json::Value::Object(map)
        },
    }
}

/// Calls `serde_json::from_str`; an error is handed on in its own words. What it returns
/// depends on the text alone and goes by the name `parsed_text`.
#[verifier::external_body]
fn value_from_str(text: &str) -> (r: Result<serde_json::Value, String>)
    ensures
        outside_parse(r) == parsed_text(text@),
{
    serde_json::from_str(text).map_err(|e: serde_json::Error| e.to_string())
}

/// Calls `serde_json::from_slice`; an error is handed on in its own words. What it returns
/// depends on the bytes alone and goes by the name `parsed_bytes`.
#[verifier::external_body]
fn value_from_slice(bytes: &[u8]) -> (r: Result<serde_json::Value, String>)
    ensures
        outside_parse(r) == parsed_bytes(bytes@),
{
    serde_json::from_slice(bytes).map_err(|e: serde_json::Error| e.to_string())
}

/// Calls `to_string` of `serde_json::Value`, whose text goes by the name `compact_text`. It
/// claims that `serde_json::from_str` reads the same document back from that text, where the
/// document nests no deeper than the reader goes and each fraction in it is one that is read
/// back by itself (some are read with a rounding error).
#[verifier::external_body]
fn value_to_string(value: &serde_json::Value) -> (r: String)
    ensures
        r@ == compact_text(value_tree(*value)),
        value_tree(*value).plain(MAX_DEPTH as nat) ==> reads_as(r@, value_tree(*value)),
{
    value.to_string()
}

/// Reads a document from its text.
pub fn parse(text: &str) -> (r: Result<Json, String>)
    ensures
        read_outcome(r) == parsed_text(text@),
{
    match value_from_str(text) {
        Ok(v) => Ok(json_of_value(v)),
        Err(e) => Err(e),
    }
}

/// Reads a document from the bytes of its text.
pub fn parse_bytes(bytes: &[u8]) -> (r: Result<Json, String>)
    ensures
        read_outcome(r) == parsed_bytes(bytes@),
{
    match value_from_slice(bytes) {
        Ok(v) => Ok(json_of_value(v)),
        Err(e) => Err(e),
    }
}

/// Writes a document as a text without spaces. A document that nests no deeper than `MAX_DEPTH`
/// is read back from it as it was, unless it holds a fraction that is not.
pub fn render(json: Json) -> (r: String)
    ensures
        r@ == compact_text(json@),
        json@.plain(MAX_DEPTH as nat) ==> reads_as(r@, json@),
{
    value_to_string(&value_of_json(json))
}

// ---- what is read of a document ----

/// A member that was written is read again, and every other member is as it was.
pub proof fn law_a_written_member_is_read_again(
    doc: JsonV,
    name: Seq<char>,
    value: JsonV,
    other: Seq<char>,
)
    ensures
        doc.with(name, value).get(name) == value,
        doc.with(name, value).member(name) == Some(value),
        other != name ==> doc.with(name, value).member(other) == doc.member(other),
        other != name ==> doc.with(name, value).get(other) == doc.get(other),
{
}

/// A document is read as what it is and as nothing else: a text as that text, an integer of 64
/// bits with a sign as that integer, a flag as that flag; and only an object has members, only a
/// list has items.
pub proof fn law_documents_are_read_as_what_they_are(doc: JsonV, name: Seq<char>, place: nat)
    ensures
        doc.text() is Some <==> doc is Str,
        doc.text() is Some ==> doc == JsonV::Str(doc.text()->0),
        doc is Str ==> doc == JsonV::Str(doc.text_or_empty()),
        !(doc is Str) ==> doc.text_or_empty().len() == 0,
        doc.integer() is Some <==> doc is Int && -0x8000_0000_0000_0000 <= doc->Int_0
            <= 0x7fff_ffff_ffff_ffff,
        doc.integer() is Some ==> doc == JsonV::Int(doc.integer()->0),
        doc.flag() is Some <==> doc is Bool,
        doc.flag() is Some ==> doc == JsonV::Bool(doc.flag()->0),
        doc.member(name) is Some <==> doc is Obj && doc->Obj_0.contains_key(name),
        doc.member(name) is Some ==> doc->Obj_0[name] == doc.member(name)->0 && doc.get(name)
            == doc.member(name)->0,
        doc.member(name) is None ==> doc.get(name) is Null,
        doc is Arr && place < doc->Arr_0.len() ==> doc.at(place) == doc->Arr_0[place as int],
        !(doc is Arr) || place >= doc->Arr_0.len() ==> doc.at(place) is Null,
{
}

/// Of the members of an object that have one name the last one counts.
pub proof fn law_the_last_member_counts(members: Seq<(String, Json)>, name: Seq<char>, at: int)
    requires
        -1 <= at < members.len(),
        at >= 0 ==> members[at].0@ == name,
        forall|j: int| at < j < members.len() ==> (#[trigger] members[j]).0@ != name,
    ensures
        at >= 0 ==> members_of(members).contains_key(name) && members_of(members)[name]
            == members[at].1@,
        at < 0 ==> !members_of(members).contains_key(name),
    decreases members.len(),
{
    if members.len() > 0 && at < members.len() - 1 {
        assert(members.last().0@ != name);
        assert forall|j: int| at < j < members.drop_last().len() implies (
        #[trigger] members.drop_last()[j]).0@ != name by {
            assert(members.drop_last()[j] == members[j]);
        }
        law_the_last_member_counts(members.drop_last(), name, at);
    }
}

/// The items of a list are read each in its place.
pub proof fn law_items_keep_their_places(items: Seq<Json>, i: int)
    requires
        0 <= i < items.len(),
    ensures
        items_of(items).len() == items.len(),
        items_of(items)[i] == items[i]@,
{
    lemma_items_of(items);
}

/// What is written of a document is read back where it nests at most that deep and its fractions
/// are: texts, integers, flags and `Null` always are, and a list or an object is where what it
/// holds is, one level less deep.
pub proof fn law_what_is_read_back(doc: JsonV, room: nat, more: nat)
    ensures
        doc is Str || doc is Int || doc is Bool || doc is Null ==> doc.plain(room),
        doc is Arr && (forall|i: int|
            0 <= i < doc->Arr_0.len() ==> (#[trigger] doc->Arr_0[i]).plain(room)) ==> doc.plain(
            room + 1,
        ),
        doc is Obj && (forall|k: Seq<char>| #[trigger]
            doc->Obj_0.contains_key(k) ==> doc->Obj_0[k].plain(room)) ==> doc.plain(room + 1),
        doc.plain(room) && room <= more ==> doc.plain(more),
    decreases room,
{
    if doc.plain(room) && room <= more {
        if doc is Arr {
            assert forall|i: int| 0 <= i < doc->Arr_0.len() implies (
            #[trigger] doc->Arr_0[i]).plain((more - 1) as nat) by {
                law_what_is_read_back(doc->Arr_0[i], (room - 1) as nat, (more - 1) as nat);
            }
        } else if doc is Obj {
            assert forall|k: Seq<char>| #[trigger]
                doc->Obj_0.contains_key(k) implies doc->Obj_0[k].plain((more - 1) as nat) by {
                law_what_is_read_back(doc->Obj_0[k], (room - 1) as nat, (more - 1) as nat);
            }
        }
    }
}

/// A document says what it holds, whichever way its integers are held.
pub proof fn law_documents_say_what_they_hold(b: bool, n: i64, u: u64, s: String, f: Fraction)
    ensures
        Json::Null@ is Null,
        Json::Bool(b)@ == JsonV::Bool(b),
        Json::Int(n)@ == JsonV::Int(n as int),
        Json::Large(u)@ == JsonV::Int(u as int),
        Json::Fraction(f)@ == JsonV::Fraction(f.spec_number()),
        Json::Str(s)@ == JsonV::Str(s@),
{
}

} // verus!

use vstd::prelude::*;

verus! {

/// A JSON number, as far as the decoder tells numbers apart.
#[derive(Debug, Clone, Copy, PartialEq, Eq, Structural)]
pub enum JsonNumber {
    /// A non-negative integer that fits in 64 bits.
    PosInt(u64),
    /// A negative integer that fits in 64 bits.
    NegInt(i64),
    /// Any other number.
    Float,
}

/// A JSON document. The members of an object keep the order in which they
/// were given.
#[derive(Debug)]
pub enum Json {
    Null,
    Bool(bool),
    Number(JsonNumber),
    Str(String),
    Array(Vec<Json>),
    Object(Vec<(String, Json)>),
}

/// The mathematical value of a JSON document.
pub enum JsonView {
    Null,
    Bool(bool),
    Number(JsonNumber),
    Str(Seq<char>),
    Array(Seq<JsonView>),
    Object(Seq<(Seq<char>, JsonView)>),
}

pub open spec fn view_of(j: Json) -> JsonView
    decreases j,
{
    match j {
        Json::Null => JsonView::Null,
        Json::Bool(b) => JsonView::Bool(b),
        Json::Number(n) => JsonView::Number(n),
        Json::Str(s) => JsonView::Str(s@),
        Json::Array(items) => JsonView::Array(
            Seq::new(
                items@.len(),
                |i: int|
                    if 0 <= i < items@.len() {
                        view_of(items@[i])
                    } else {
                        JsonView::Null
                    },
            ),
        ),
        Json::Object(members) => JsonView::Object(
            Seq::new(
                members@.len(),
                |i: int|
                    if 0 <= i < members@.len() {
                        (members@[i].0@, view_of(members@[i].1))
                    } else {
                        (Seq::empty(), JsonView::Null)
                    },
            ),
        ),
    }
}

impl View for Json {
    type V = JsonView;

    open spec fn view(&self) -> JsonView {
        view_of(*self)
    }
}

/// The value of the first member named `key`.
pub open spec fn member(members: Seq<(Seq<char>, JsonView)>, key: Seq<char>) -> Option<JsonView>
    decreases members.len(),
{
    if members.len() == 0 {
        None
    } else if members[0].0 == key {
        Some(members[0].1)
    } else {
        member(members.drop_first(), key)
    }
}

/// The member named `key` of `j`, where `j` is an object.
pub open spec fn get(j: JsonView, key: Seq<char>) -> Option<JsonView> {
    match j {
        JsonView::Object(members) => member(members, key),
        _ => None,
    }
}

proof fn lemma_member_step(members: Seq<(Seq<char>, JsonView)>, i: int, key: Seq<char>)
    requires
        0 <= i < members.len(),
    ensures
        member(members.subrange(i, members.len() as int), key) == if members[i].0 == key {
            Some(members[i].1)
        } else {
            member(members.subrange(i + 1, members.len() as int), key)
        },
{
    let s = members.subrange(i, members.len() as int);
    assert(s.drop_first() =~= members.subrange(i + 1, members.len() as int));
}

impl Json {
    /// The value of the member named `key`, where this is an object holding
    /// one.
    pub fn get(&self, key: &str) -> (r: Option<&Json>)
        ensures
            match r {
                Some(v) => get(self@, key@) == Some(v@),
                None => get(self@, key@) is None,
            },
    {
        match self {
            Json::Object(members) => {
                let ghost ms = match self@ {
                    JsonView::Object(ms) => ms,
                    _ => Seq::empty(),
                };
                assert(self@ == JsonView::Object(ms));
                let name = String::from_str(key);
                let mut i: usize = 0;
                assert(ms.subrange(0, ms.len() as int) =~= ms);
                while i < members.len()
                    invariant
                        0 <= i <= members@.len(),
                        ms.len() == members@.len(),
                        forall|k: int| 0 <= k < ms.len() ==> #[trigger] ms[k] == (members@[k].0@, members@[k].1@),
                        name@ == key@,
                        get(self@, key@) == member(ms, key@),
                        member(ms, key@) == member(ms.subrange(i as int, ms.len() as int), key@),
                    decreases members.len() - i,
                {
                    proof {
                        lemma_member_step(ms, i as int, key@);
                    }
                    if members[i].0 == name {
                        return Some(&members[i].1);
                    }
                    i = i + 1;
                }
                None
            },
            _ => None,
        }
    }
}

} // verus!

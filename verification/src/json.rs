//! A JSON document as plain values, and the ways the opener looks into one.

use crate::text::same_text;
use vstd::prelude::*;

verus! {

/// A JSON value. A number keeps what it is as an unsigned 64-bit integer, if it is one.
#[derive(Debug)]
pub enum Json {
    Null,
    Bool(bool),
    Number(Option<u64>),
    Text(String),
    List(Vec<Json>),
    Object(Vec<Member>),
}

/// One member of a JSON object.
#[derive(Debug)]
pub struct Member {
    pub name: String,
    pub value: Json,
}

/// The value of the first member of that name.
pub open spec fn named(members: Seq<Member>, name: Seq<char>) -> Option<Json>
    decreases members.len(),
{
    if members.len() == 0 {
        None
    } else if members[0].name@ == name {
        Some(members[0].value)
    } else {
        named(members.skip(1), name)
    }
}

impl Json {
    /// The member of that name, if this is an object that has one.
    pub open spec fn member(self, name: Seq<char>) -> Option<Json> {
        match self {
            Json::Object(members) => named(members@, name),
            _ => None,
        }
    }

    /// The member `inner` of the member `outer`.
    pub open spec fn nested(self, outer: Seq<char>, inner: Seq<char>) -> Option<Json> {
        match self.member(outer) {
            Some(value) => value.member(inner),
            None => None,
        }
    }

    /// Finds a member of an object by its name.
    pub fn get(&self, name: &str) -> (found: Option<&Json>)
        ensures
            match found {
                Some(value) => self.member(name@) == Some(*value),
                None => self.member(name@) is None,
            },
    {
        match self {
            Json::Object(members) => {
                let mut i: usize = 0;
                assert(members@.skip(0) =~= members@);
                while i < members.len()
                    invariant
                        i <= members.len(),
                        self.member(name@) == named(members@, name@),
                        named(members@, name@) == named(members@.skip(i as int), name@),
                    decreases members.len() - i,
                {
                    if same_text(&members[i].name, name) {
                        return Some(&members[i].value);
                    }
                    assert(members@.skip(i as int).skip(1) =~= members@.skip(i + 1));
                    i = i + 1;
                }
                None
            },
            _ => None,
        }
    }

    /// Finds a member of a member.
    pub fn get_nested(&self, outer: &str, inner: &str) -> (found: Option<&Json>)
        ensures
            match found {
                Some(value) => self.nested(outer@, inner@) == Some(*value),
                None => self.nested(outer@, inner@) is None,
            },
    {
        match self.get(outer) {
            Some(value) => value.get(inner),
            None => None,
        }
    }
}

/// A member is found by its name: the first that has it counts, and where none has it there is none.
pub proof fn law_members_are_found_by_name(members: Vec<Member>, name: Seq<char>, i: int)
    ensures
        0 <= i < members@.len() && members@[i].name@ == name && (forall|j: int|
            0 <= j < i ==> #[trigger] members@[j].name@ != name) ==> Json::Object(members).member(
            name,
        ) == Some(members@[i].value),
        (forall|j: int| 0 <= j < members@.len() ==> #[trigger] members@[j].name@ != name)
            ==> Json::Object(members).member(name) is None,
{
    if 0 <= i < members@.len() && members@[i].name@ == name && (forall|j: int|
        0 <= j < i ==> #[trigger] members@[j].name@ != name) {
        lemma_named(members@, name, i);
    }
    if forall|j: int| 0 <= j < members@.len() ==> #[trigger] members@[j].name@ != name {
        lemma_not_named(members@, name);
    }
}

proof fn lemma_named(members: Seq<Member>, name: Seq<char>, i: int)
    requires
        0 <= i < members.len(),
        members[i].name@ == name,
        forall|j: int| 0 <= j < i ==> #[trigger] members[j].name@ != name,
    ensures
        named(members, name) == Some(members[i].value),
    decreases i,
{
    if i > 0 {
        let rest = members.skip(1);
        assert(members[0].name@ != name);
        assert forall|j: int| 0 <= j < i - 1 implies #[trigger] rest[j].name@ != name by {
            assert(rest[j] == members[j + 1]);
        }
        lemma_named(rest, name, i - 1);
    }
}

proof fn lemma_not_named(members: Seq<Member>, name: Seq<char>)
    requires
        forall|j: int| 0 <= j < members.len() ==> #[trigger] members[j].name@ != name,
    ensures
        named(members, name) is None,
    decreases members.len(),
{
    if members.len() > 0 {
        let rest = members.skip(1);
        assert(members[0].name@ != name);
        assert forall|j: int| 0 <= j < rest.len() implies #[trigger] rest[j].name@ != name by {
            assert(rest[j] == members[j + 1]);
        }
        lemma_not_named(rest, name);
    }
}

/// Only an object has members, and a member of a member is found one name after the other.
pub proof fn law_only_objects_have_members(json: Json, outer: Seq<char>, inner: Seq<char>)
    ensures
        !(json is Object) ==> json.member(outer) is None,
        json.member(outer) is None ==> json.nested(outer, inner) is None,
        json.member(outer) matches Some(value) ==> json.nested(outer, inner) == value.member(inner),
{
}

} // verus!

use vstd::prelude::*;

verus! {

/// A decoded JSON document, as the service's replies carry it. A number
/// keeps the text it was written with.
#[derive(Debug)]
pub enum JsonValue {
    Null,
    Bool(bool),
    Number(String),
    Str(String),
    Array(Vec<JsonValue>),
    Object(Vec<(String, JsonValue)>),
}

/// The value of the first member named `key`.
pub open spec fn member(fields: Seq<(String, JsonValue)>, key: Seq<char>) -> Option<JsonValue>
    decreases fields.len(),
{
    if fields.len() == 0 {
        None
    } else if fields[0].0@ == key {
        Some(fields[0].1)
    } else {
        member(fields.drop_first(), key)
    }
}

impl JsonValue {
    /// The member named `key`, when this is an object that has one.
    pub open spec fn field(&self, key: Seq<char>) -> Option<JsonValue> {
        match self {
            JsonValue::Object(fields) => member(fields@, key),
            _ => None,
        }
    }

    /// The text of a string value.
    pub open spec fn text(&self) -> Option<Seq<char>> {
        match self {
            JsonValue::Str(s) => Some(s@),
            _ => None,
        }
    }

    /// The member named `key`, when this is an object that has one.
    pub fn get(&self, key: &str) -> (r: Option<&JsonValue>)
        ensures
            match r {
                Some(v) => self.field(key@) == Some(*v),
                None => self.field(key@) is None,
            },
    {
        match self {
            JsonValue::Object(fields) => {
                let n = fields.len();
                let mut i: usize = 0;
                let k = String::from_str(key);
                assert(fields@.subrange(0, n as int) =~= fields@);
                while i < n
                    invariant
                        n == fields@.len(),
                        i <= n,
                        k@ == key@,
                        self.field(key@) == member(fields@, key@),
                        member(fields@, key@) == member(fields@.subrange(i as int, n as int), key@),
                    decreases n - i,
                {
                    let ghost rest = fields@.subrange(i as int, n as int);
                    assert(rest.drop_first() =~= fields@.subrange(i + 1, n as int));
                    assert(rest[0] == fields@[i as int]);
                    if fields[i].0 == k {
                        assert(member(rest, key@) == Some(rest[0].1));
                        return Some(&fields[i].1);
                    }
                    i = i + 1;
                }
                None
            },
            _ => None,
        }
    }

    /// The text of a string value.
    pub fn as_str(&self) -> (r: Option<&String>)
        ensures
            match r {
                Some(s) => self.text() == Some(s@),
                None => self.text() is None,
            },
    {
        match self {
            JsonValue::Str(s) => Some(s),
            _ => None,
        }
    }
}

} // verus!

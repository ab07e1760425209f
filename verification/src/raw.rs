//! Raw feed records: the shape of a decoded payload before any field has
//! been interpreted.

use vstd::prelude::*;
use vstd::string::*;

verus! {

/// One value of a raw feed record.
#[derive(Debug)]
pub enum RawValue {
    /// An explicit null.
    Null,
    /// A boolean.
    Bool(bool),
    /// A number, held as the text that wrote it.
    Number(String),
    /// A string.
    Text(String),
    /// An array.
    List(Vec<RawValue>),
    /// An object: its members in the order in which they were read.
    Object(Vec<RawField>),
}

/// One member of a raw object.
#[derive(Debug)]
pub struct RawField {
    /// The member's key.
    pub name: String,
    /// The member's value.
    pub value: RawValue,
}

/// The index of the first of `fields[from..]` whose key is `name`.
pub open spec fn first_named(fields: Seq<RawField>, name: Seq<char>, from: int) -> Option<int>
    decreases fields.len() - from,
{
    if from < 0 || from >= fields.len() {
        None
    } else if fields[from].name@ == name {
        Some(from)
    } else {
        first_named(fields, name, from + 1)
    }
}

/// Finds the first of `fields` whose key is `name`.
pub fn field_position(fields: &Vec<RawField>, name: &str) -> (r: Option<usize>)
    ensures
        match r {
            Some(i) => first_named(fields@, name@, 0) == Some(i as int) && i < fields.len(),
            None => first_named(fields@, name@, 0) is None,
        },
{
    let mut i: usize = 0;
    while i < fields.len()
        invariant
            i <= fields.len(),
            first_named(fields@, name@, 0) == first_named(fields@, name@, i as int),
        decreases fields.len() - i,
    {
        if *fields[i].name.as_str() == *name {
            return Some(i);
        }
        i += 1;
    }
    None
}

impl RawValue {
    /// The value of the first member called `name`, if `self` is an object
    /// that has one.
    pub open spec fn spec_field(&self, name: Seq<char>) -> Option<RawValue> {
        match self {
            RawValue::Object(fields) => match first_named(fields@, name, 0) {
                Some(i) => Some(fields@[i].value),
                None => None,
            },
            _ => None,
        }
    }

    /// The characters of `self`, if it is a string.
    pub open spec fn spec_text(&self) -> Option<Seq<char>> {
        match self {
            RawValue::Text(s) => Some(s@),
            _ => None,
        }
    }

    /// The elements of `self`, if it is an array.
    pub open spec fn spec_items(&self) -> Option<Seq<RawValue>> {
        match self {
            RawValue::List(items) => Some(items@),
            _ => None,
        }
    }

    /// The string member called `name`: present, and a string.
    pub open spec fn spec_text_field(&self, name: Seq<char>) -> Option<Seq<char>> {
        match self.spec_field(name) {
            Some(v) => v.spec_text(),
            None => None,
        }
    }

    /// Whether `self` has no member called `name`, or has it as a null.
    pub open spec fn spec_absent(&self, name: Seq<char>) -> bool {
        self.spec_field(name) is None || self.spec_field(name) == Some(RawValue::Null)
    }

    /// Looks up the first member called `name`.
    pub fn field(&self, name: &str) -> (r: Option<&RawValue>)
        ensures
            match r {
                Some(v) => self.spec_field(name@) == Some(*v),
                None => self.spec_field(name@) is None,
            },
    {
        match self {
            RawValue::Object(fields) => match field_position(fields, name) {
                Some(i) => Some(&fields[i].value),
                None => None,
            },
            _ => None,
        }
    }

    /// The string that `self` holds.
    pub fn as_text(&self) -> (r: Option<&str>)
        ensures
            match r {
                Some(s) => self.spec_text() == Some(s@),
                None => self.spec_text() is None,
            },
    {
        match self {
            RawValue::Text(s) => Some(s.as_str()),
            _ => None,
        }
    }

    /// The elements that `self` holds.
    pub fn as_list(&self) -> (r: Option<&Vec<RawValue>>)
        ensures
            match r {
                Some(items) => self.spec_items() == Some(items@),
                None => self.spec_items() is None,
            },
    {
        match self {
            RawValue::List(items) => Some(items),
            _ => None,
        }
    }

    /// Whether `self` is an object.
    pub fn is_object(&self) -> (r: bool)
        ensures
            r == (self is Object),
    {
        match self {
            RawValue::Object(_) => true,
            _ => false,
        }
    }

    /// Whether `self` is a null.
    pub fn is_null(&self) -> (r: bool)
        ensures
            r == (self is Null),
    {
        match self {
            RawValue::Null => true,
            _ => false,
        }
    }

    /// The string member called `name`.
    pub fn text_field(&self, name: &str) -> (r: Option<&str>)
        ensures
            match r {
                Some(s) => self.spec_text_field(name@) == Some(s@),
                None => self.spec_text_field(name@) is None,
            },
    {
        match self.field(name) {
            Some(v) => v.as_text(),
            None => None,
        }
    }

    /// Takes the value of the first member called `name` out of an object.
    pub fn into_field(self, name: &str) -> (r: Option<RawValue>)
        ensures
            r == self.spec_field(name@),
    {
        match self {
            RawValue::Object(fields) => {
                let mut fields = fields;
                match field_position(&fields, name) {
                    Some(i) => Some(fields.remove(i).value),
                    None => None,
                }
            },
            _ => None,
        }
    }

    /// Takes the elements out of an array.
    pub fn into_list(self) -> (r: Option<Vec<RawValue>>)
        ensures
            match r {
                Some(items) => self.spec_items() == Some(items@),
                None => self.spec_items() is None,
            },
    {
        match self {
            RawValue::List(items) => Some(items),
            _ => None,
        }
    }
}

} // verus!

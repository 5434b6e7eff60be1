//! A JSON value as the resource parsers read it.
use vstd::prelude::*;
use crate::error::{DecodeError, Field};

verus! {

/// A decoded JSON value. Integers are held exactly; any other number keeps
/// its text.
#[derive(Debug)]
pub enum Json {
    Null,
    Bool(bool),
    Number(i128),
    Decimal(String),
    Str(String),
    Array(Vec<Json>),
    Object(Vec<(String, Json)>),
}

/// The value of the first entry named `key`, if any.
pub open spec fn field_value(fields: Seq<(String, Json)>, key: Seq<char>) -> Option<Json>
    decreases fields.len(),
{
    if fields.len() == 0 {
        None
    } else if fields[0].0@ == key {
        Some(fields[0].1)
    } else {
        field_value(fields.drop_first(), key)
    }
}

/// Looks up the first entry named by `field`'s key.
pub fn lookup<'a>(fields: &'a Vec<(String, Json)>, field: Field) -> (r: Option<&'a Json>)
    ensures
        match r {
            Some(v) => field_value(fields@, field.key_of()) == Some(*v),
            None => field_value(fields@, field.key_of()) is None,
        },
{
    let key = field.key().to_owned();
    let ghost k = field.key_of();
    let mut i: usize = 0;
    assert(fields@.subrange(0, fields@.len() as int) =~= fields@);
    while i < fields.len()
        invariant
            i <= fields@.len(),
            key@ == k,
            k == field.key_of(),
            field_value(fields@, k) == field_value(fields@.subrange(i as int, fields@.len() as int), k),
        decreases fields@.len() - i,
    {
        let entry = &fields[i];
        let ghost rest = fields@.subrange(i as int, fields@.len() as int);
        assert(rest[0] == fields@[i as int]);
        if entry.0 == key {
            assert(rest[0].0@ == k);
            assert(field_value(rest, k) == Some(rest[0].1));
            return Some(&entry.1);
        }
        assert(rest.drop_first() =~= fields@.subrange(i + 1, fields@.len() as int));
        i = i + 1;
    }
    None
}

/// A required integer field in `0..=255`.
pub open spec fn req_u8(fields: Seq<(String, Json)>, f: Field) -> Result<u8, DecodeError> {
    match field_value(fields, f.key_of()) {
        None => Err(DecodeError::Missing(f)),
        Some(Json::Number(n)) => if 0 <= n <= 255 {
            Ok(n as u8)
        } else {
            Err(DecodeError::Invalid(f))
        },
        Some(_) => Err(DecodeError::Invalid(f)),
    }
}

/// A required non-negative integer field that fits 32 bits.
pub open spec fn req_u32(fields: Seq<(String, Json)>, f: Field) -> Result<u32, DecodeError> {
    match field_value(fields, f.key_of()) {
        None => Err(DecodeError::Missing(f)),
        Some(Json::Number(n)) => if 0 <= n <= u32::MAX {
            Ok(n as u32)
        } else {
            Err(DecodeError::Invalid(f))
        },
        Some(_) => Err(DecodeError::Invalid(f)),
    }
}

/// A required string field.
pub open spec fn req_str(fields: Seq<(String, Json)>, f: Field) -> Result<Seq<char>, DecodeError> {
    match field_value(fields, f.key_of()) {
        None => Err(DecodeError::Missing(f)),
        Some(Json::Str(s)) => Ok(s@),
        Some(_) => Err(DecodeError::Invalid(f)),
    }
}

/// A required boolean field.
pub open spec fn req_bool(fields: Seq<(String, Json)>, f: Field) -> Result<bool, DecodeError> {
    match field_value(fields, f.key_of()) {
        None => Err(DecodeError::Missing(f)),
        Some(Json::Bool(b)) => Ok(b),
        Some(_) => Err(DecodeError::Invalid(f)),
    }
}

/// Reads a required integer field in `0..=255`.
pub fn read_u8(fields: &Vec<(String, Json)>, f: Field) -> (r: Result<u8, DecodeError>)
    ensures
        r == req_u8(fields@, f),
{
    match lookup(fields, f) {
        None => Err(DecodeError::Missing(f)),
        Some(Json::Number(n)) => if 0 <= *n && *n <= 255 {
            Ok(*n as u8)
        } else {
            Err(DecodeError::Invalid(f))
        },
        Some(_) => Err(DecodeError::Invalid(f)),
    }
}

/// Reads a required non-negative integer field that fits 32 bits.
pub fn read_u32(fields: &Vec<(String, Json)>, f: Field) -> (r: Result<u32, DecodeError>)
    ensures
        r == req_u32(fields@, f),
{
    match lookup(fields, f) {
        None => Err(DecodeError::Missing(f)),
        Some(Json::Number(n)) => if 0 <= *n && *n <= 0xffff_ffff {
            Ok(*n as u32)
        } else {
            Err(DecodeError::Invalid(f))
        },
        Some(_) => Err(DecodeError::Invalid(f)),
    }
}

/// Reads a required string field.
pub fn read_str(fields: &Vec<(String, Json)>, f: Field) -> (r: Result<String, DecodeError>)
    ensures
        match r {
            Ok(s) => req_str(fields@, f) == Ok::<Seq<char>, DecodeError>(s@),
            Err(e) => req_str(fields@, f) == Err::<Seq<char>, DecodeError>(e),
        },
{
    match lookup(fields, f) {
        None => Err(DecodeError::Missing(f)),
        Some(Json::Str(s)) => Ok(s.clone()),
        Some(_) => Err(DecodeError::Invalid(f)),
    }
}

/// Reads a required boolean field.
pub fn read_bool(fields: &Vec<(String, Json)>, f: Field) -> (r: Result<bool, DecodeError>)
    ensures
        r == req_bool(fields@, f),
{
    match lookup(fields, f) {
        None => Err(DecodeError::Missing(f)),
        Some(Json::Bool(b)) => Ok(*b),
        Some(_) => Err(DecodeError::Invalid(f)),
    }
}

} // verus!

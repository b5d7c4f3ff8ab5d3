use vstd::prelude::*;

use crate::value::{member, DynamicValue};

verus! {

/// Why a value could not cross between its static type and a dynamic value.
#[derive(Debug)]
pub enum CodecError {
    /// The value has a shape that dynamic values cannot represent.
    Encoding(String),
    /// The dynamic value does not have the shape that the type expects.
    Decoding(String),
}

/// A type whose values convert to and from dynamic values.
///
/// `encoding` and `decoding` describe the conversion; `encode` and `decode`
/// perform it, and every implementation proves that decoding an encoding gives
/// the value back.
pub trait Codec: Sized {
    /// Whether the value has a dynamic representation.
    spec fn encodable(&self) -> bool;

    /// The dynamic representation of an encodable value.
    spec fn encoding(&self) -> DynamicValue;

    /// The value that a dynamic value stands for, if it has the expected shape.
    spec fn decoding(v: DynamicValue) -> Option<Self>;

    fn encode(&self) -> (r: Result<DynamicValue, CodecError>)
        ensures
            self.encodable() ==> r == Ok::<DynamicValue, CodecError>(self.encoding()),
            !self.encodable() ==> r matches Err(CodecError::Encoding(_)),
    ;

    fn decode(v: &DynamicValue) -> (r: Result<Self, CodecError>)
        ensures
            Self::decoding(*v) matches Some(x) ==> r == Ok::<Self, CodecError>(x),
            Self::decoding(*v) is None ==> r matches Err(CodecError::Decoding(_)),
    ;

    proof fn lemma_decoding_inverts_encoding(x: Self)
        requires
            x.encodable(),
        ensures
            Self::decoding(x.encoding()) == Some(x),
    ;
}

fn mismatch(expected: &str) -> (r: CodecError)
    ensures
        r is Decoding,
{
    let mut message = "expected ".to_owned();
    message.append(expected);
    CodecError::Decoding(message)
}

impl Codec for bool {
    open spec fn encodable(&self) -> bool {
        true
    }

    open spec fn encoding(&self) -> DynamicValue {
        DynamicValue::Bool(*self)
    }

    open spec fn decoding(v: DynamicValue) -> Option<bool> {
        match v {
            DynamicValue::Bool(b) => Some(b),
            _ => None,
        }
    }

    fn encode(&self) -> (r: Result<DynamicValue, CodecError>) {
        Ok(DynamicValue::Bool(*self))
    }

    fn decode(v: &DynamicValue) -> (r: Result<bool, CodecError>) {
        match v {
            DynamicValue::Bool(b) => Ok(*b),
            _ => Err(mismatch("a boolean")),
        }
    }

    proof fn lemma_decoding_inverts_encoding(x: bool) {
    }
}

impl Codec for i64 {
    open spec fn encodable(&self) -> bool {
        true
    }

    open spec fn encoding(&self) -> DynamicValue {
        DynamicValue::Integer(*self)
    }

    open spec fn decoding(v: DynamicValue) -> Option<i64> {
        match v {
            DynamicValue::Integer(n) => Some(n),
            _ => None,
        }
    }

    fn encode(&self) -> (r: Result<DynamicValue, CodecError>) {
        Ok(DynamicValue::Integer(*self))
    }

    fn decode(v: &DynamicValue) -> (r: Result<i64, CodecError>) {
        match v {
            DynamicValue::Integer(n) => Ok(*n),
            _ => Err(mismatch("an integer")),
        }
    }

    proof fn lemma_decoding_inverts_encoding(x: i64) {
    }
}

impl Codec for i32 {
    open spec fn encodable(&self) -> bool {
        true
    }

    open spec fn encoding(&self) -> DynamicValue {
        DynamicValue::Integer(*self as i64)
    }

    open spec fn decoding(v: DynamicValue) -> Option<i32> {
        match v {
            DynamicValue::Integer(n) => if i32::MIN <= n <= i32::MAX {
                Some(n as i32)
            } else {
                None
            },
            _ => None,
        }
    }

    fn encode(&self) -> (r: Result<DynamicValue, CodecError>) {
        Ok(DynamicValue::Integer(*self as i64))
    }

    fn decode(v: &DynamicValue) -> (r: Result<i32, CodecError>) {
        match v {
            DynamicValue::Integer(n) => if i32::MIN as i64 <= *n && *n <= i32::MAX as i64 {
                Ok(*n as i32)
            } else {
                Err(mismatch("an integer in the range of i32"))
            },
            _ => Err(mismatch("an integer")),
        }
    }

    proof fn lemma_decoding_inverts_encoding(x: i32) {
    }
}

impl Codec for u32 {
    open spec fn encodable(&self) -> bool {
        true
    }

    open spec fn encoding(&self) -> DynamicValue {
        DynamicValue::Integer(*self as i64)
    }

    open spec fn decoding(v: DynamicValue) -> Option<u32> {
        match v {
            DynamicValue::Integer(n) => if 0 <= n <= u32::MAX {
                Some(n as u32)
            } else {
                None
            },
            _ => None,
        }
    }

    fn encode(&self) -> (r: Result<DynamicValue, CodecError>) {
        Ok(DynamicValue::Integer(*self as i64))
    }

    fn decode(v: &DynamicValue) -> (r: Result<u32, CodecError>) {
        match v {
            DynamicValue::Integer(n) => if 0 <= *n && *n <= u32::MAX as i64 {
                Ok(*n as u32)
            } else {
                Err(mismatch("an integer in the range of u32"))
            },
            _ => Err(mismatch("an integer")),
        }
    }

    proof fn lemma_decoding_inverts_encoding(x: u32) {
    }
}

impl Codec for u64 {
    /// Integers of the host are signed 64-bit: larger values have no representation.
    open spec fn encodable(&self) -> bool {
        *self <= i64::MAX
    }

    open spec fn encoding(&self) -> DynamicValue {
        DynamicValue::Integer(*self as i64)
    }

    open spec fn decoding(v: DynamicValue) -> Option<u64> {
        match v {
            DynamicValue::Integer(n) => if 0 <= n {
                Some(n as u64)
            } else {
                None
            },
            _ => None,
        }
    }

    fn encode(&self) -> (r: Result<DynamicValue, CodecError>) {
        if *self <= i64::MAX as u64 {
            Ok(DynamicValue::Integer(*self as i64))
        } else {
            Err(CodecError::Encoding("integer too large for the host".to_owned()))
        }
    }

    fn decode(v: &DynamicValue) -> (r: Result<u64, CodecError>) {
        match v {
            DynamicValue::Integer(n) => if 0 <= *n {
                Ok(*n as u64)
            } else {
                Err(mismatch("a non-negative integer"))
            },
            _ => Err(mismatch("an integer")),
        }
    }

    proof fn lemma_decoding_inverts_encoding(x: u64) {
    }
}

impl Codec for String {
    open spec fn encodable(&self) -> bool {
        true
    }

    open spec fn encoding(&self) -> DynamicValue {
        DynamicValue::Text(*self)
    }

    open spec fn decoding(v: DynamicValue) -> Option<String> {
        match v {
            DynamicValue::Text(s) => Some(s),
            _ => None,
        }
    }

    fn encode(&self) -> (r: Result<DynamicValue, CodecError>) {
        Ok(DynamicValue::Text(self.clone()))
    }

    fn decode(v: &DynamicValue) -> (r: Result<String, CodecError>) {
        match v {
            DynamicValue::Text(s) => Ok(s.clone()),
            _ => Err(mismatch("a string")),
        }
    }

    proof fn lemma_decoding_inverts_encoding(x: String) {
    }
}

/// An absent value is `Null`; a present one is its own encoding, which must then
/// not be `Null` itself, or the two could not be told apart.
impl<T: Codec> Codec for Option<T> {
    open spec fn encodable(&self) -> bool {
        match self {
            None => true,
            Some(x) => x.encodable() && x.encoding() != DynamicValue::Null,
        }
    }

    open spec fn encoding(&self) -> DynamicValue {
        match self {
            None => DynamicValue::Null,
            Some(x) => x.encoding(),
        }
    }

    open spec fn decoding(v: DynamicValue) -> Option<Option<T>> {
        match v {
            DynamicValue::Null => Some(None),
            _ => match T::decoding(v) {
                Some(x) => Some(Some(x)),
                None => None,
            },
        }
    }

    fn encode(&self) -> (r: Result<DynamicValue, CodecError>) {
        match self {
            None => Ok(DynamicValue::Null),
            Some(x) => {
                let e = x.encode()?;
                if let DynamicValue::Null = e {
                    Err(CodecError::Encoding("a present value that encodes as null".to_owned()))
                } else {
                    Ok(e)
                }
            },
        }
    }

    fn decode(v: &DynamicValue) -> (r: Result<Option<T>, CodecError>) {
        match v {
            DynamicValue::Null => Ok(None),
            _ => match T::decode(v) {
                Ok(x) => Ok(Some(x)),
                Err(e) => Err(e),
            },
        }
    }

    proof fn lemma_decoding_inverts_encoding(x: Option<T>) {
        if let Some(y) = x {
            T::lemma_decoding_inverts_encoding(y);
        }
    }
}

/// Decoding the encoding of any encodable value gives that value back.
pub proof fn law_round_trip<T: Codec>(v: T)
    requires
        v.encodable(),
    ensures
        T::decoding(v.encoding()) == Some(v),
{
    T::lemma_decoding_inverts_encoding(v);
}

/// Encoding an encodable value and decoding the result gives the value back.
pub fn round_trip<T: Codec>(v: &T) -> (r: Result<T, CodecError>)
    requires
        v.encodable(),
    ensures
        r == Ok::<T, CodecError>(*v),
{
    proof {
        T::lemma_decoding_inverts_encoding(*v);
    }
    let e = v.encode()?;
    T::decode(&e)
}

/// The value that a record holds under `name`, a missing member counting as `Null`.
pub open spec fn member_or_null(row: DynamicValue, name: Seq<char>) -> DynamicValue {
    match member(row, name) {
        Some(v) => v,
        None => DynamicValue::Null,
    }
}

/// Decodes the member `name` of a record-shaped row, the building block of
/// decoding a row into a record type. A missing member decodes as `Null`, so
/// that optional members may be left out.
pub fn decode_member<T: Codec>(row: &DynamicValue, name: &str) -> (r: Result<T, CodecError>)
    ensures
        T::decoding(member_or_null(*row, name@)) matches Some(x) ==> r == Ok::<T, CodecError>(x),
        T::decoding(member_or_null(*row, name@)) is None ==> r matches Err(CodecError::Decoding(_)),
{
    match row.get(name) {
        Some(v) => T::decode(v),
        None => T::decode(&DynamicValue::Null),
    }
}

} // verus!

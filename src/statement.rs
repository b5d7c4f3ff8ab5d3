use vstd::prelude::*;

use std::rc::Rc;

use crate::codec::{Codec, CodecError};
use crate::error::Error;
use crate::result::{all_decode, decode_rows, decoded_rows, envelope_of, D1Result};
use crate::value::DynamicValue;

verus! {

/// The parameters bound to a statement, the latest first. Bound lists share
/// their tails, so binding one more never copies or alters an earlier list.
pub enum Bindings {
    Empty,
    Then(Rc<Bindings>, DynamicValue),
}

impl Bindings {
    /// The bound values, in the order in which they were bound.
    pub open spec fn values(self) -> Seq<DynamicValue>
        decreases self,
    {
        match self {
            Bindings::Empty => Seq::empty(),
            Bindings::Then(earlier, v) => (*earlier).values().push(v),
        }
    }

    /// The `k`-th value from the end of the list.
    fn from_end(&self, k: usize) -> (r: &DynamicValue)
        requires
            k < self.values().len(),
        ensures
            *r == self.values()[self.values().len() - 1 - k],
        decreases self,
    {
        match self {
            Bindings::Then(earlier, v) => {
                if k == 0 {
                    v
                } else {
                    earlier.from_end(k - 1)
                }
            },
            Bindings::Empty => vstd::pervasive::unreached(),
        }
    }
}

/// A query together with the parameters bound to it so far.
///
/// A statement never changes: `bind` returns a new statement and leaves the one
/// it was called on as it was, so one template can be bound in several ways.
pub struct D1PreparedStatement {
    query: String,
    bindings: Rc<Bindings>,
    count: usize,
}

impl D1PreparedStatement {
    #[verifier::type_invariant]
    spec fn counted(self) -> bool {
        self.count == (*self.bindings).values().len()
    }

    /// The query text.
    pub closed spec fn query_view(&self) -> Seq<char> {
        self.query@
    }

    /// The parameters bound so far, in the order in which they were bound.
    pub closed spec fn params(&self) -> Seq<DynamicValue> {
        (*self.bindings).values()
    }

    /// A statement for `query` with no parameter bound.
    pub fn new(query: &str) -> (r: D1PreparedStatement)
        ensures
            r.query_view() == query@,
            r.params() == Seq::<DynamicValue>::empty(),
    {
        D1PreparedStatement { query: query.to_owned(), bindings: Rc::new(Bindings::Empty), count: 0 }
    }

    pub fn query(&self) -> (r: &str)
        ensures
            r@ == self.query_view(),
    {
        self.query.as_str()
    }

    pub fn param_count(&self) -> (r: usize)
        ensures
            r == self.params().len(),
    {
        proof {
            use_type_invariant(self);
        }
        self.count
    }

    /// The parameter bound in the `i`-th place.
    pub fn param(&self, i: usize) -> (r: &DynamicValue)
        requires
            i < self.params().len(),
        ensures
            *r == self.params()[i as int],
    {
        proof {
            use_type_invariant(self);
        }
        self.bindings.from_end(self.count - 1 - i)
    }

    /// A statement with `value` bound after the parameters of this one.
    /// Fails with `ParameterEncoding` where the value has no dynamic
    /// representation; this statement is left as it is either way.
    pub fn bind<T: Codec>(&self, value: &T) -> (r: Result<D1PreparedStatement, Error>)
        requires
            self.params().len() < usize::MAX,
        ensures
            value.encodable() <==> r is Ok,
            r matches Ok(s) ==> s.query_view() == self.query_view() && s.params() == self.params().push(
                value.encoding(),
            ),
            r is Err ==> r matches Err(Error::ParameterEncoding(_)),
    {
        proof {
            use_type_invariant(self);
        }
        match value.encode() {
            Ok(v) => {
                let bindings = Rc::new(Bindings::Then(self.bindings.clone(), v));
                Ok(D1PreparedStatement { query: self.query.clone(), bindings, count: self.count + 1 })
            },
            Err(CodecError::Encoding(m)) | Err(CodecError::Decoding(m)) => {
                let mut message = "could not convert a parameter: ".to_owned();
                message.append(m.as_str());
                Err(Error::ParameterEncoding(message))
            },
        }
    }
}

impl D1PreparedStatement {
    /// Decodes the host's answer to `first`: the first row, or the asked column
    /// of it, and `Null` where the query returned no row, so that an absent row
    /// fails to decode into a type that has no absent value.
    pub fn first<T: Codec>(&self, reply: &DynamicValue) -> (r: Result<T, Error>)
        ensures
            T::decoding(*reply) matches Some(x) ==> r == Ok::<T, Error>(x),
            T::decoding(*reply) is None ==> r matches Err(Error::Decoding(_)),
    {
        match T::decode(reply) {
            Ok(x) => Ok(x),
            Err(CodecError::Decoding(m)) => Err(Error::Decoding(m)),
            Err(CodecError::Encoding(m)) => Err(Error::Decoding(m)),
        }
    }

    /// Reads the host's answer to `run` into a result envelope.
    pub fn run(&self, reply: DynamicValue) -> (r: Result<D1Result, Error>)
        ensures
            r is Ok <==> envelope_of(reply) is Some,
            r matches Ok(e) ==> envelope_of(reply) == Some(e.view()),
            r is Err ==> r matches Err(Error::HostExecution(_)),
    {
        D1Result::from_reply(reply)
    }

    /// Reads the host's answer to `all` into a result envelope with its rows.
    pub fn all(&self, reply: DynamicValue) -> (r: Result<D1Result, Error>)
        ensures
            r is Ok <==> envelope_of(reply) is Some,
            r matches Ok(e) ==> envelope_of(reply) == Some(e.view()),
            r is Err ==> r matches Err(Error::HostExecution(_)),
    {
        D1Result::from_reply(reply)
    }

    /// Decodes the host's answer to `raw`, a list with one entry per row, each
    /// row on its own; a reply that is not a list is a failure of the host.
    pub fn raw<T: Codec>(&self, reply: &DynamicValue) -> (r: Result<Vec<T>, Error>)
        ensures
            reply !is List ==> r matches Err(Error::HostExecution(_)),
            reply matches DynamicValue::List(rows) ==> {
                &&& r is Ok <==> all_decode::<T>(rows@)
                &&& r matches Ok(out) ==> decoded_rows(rows@, out@)
                &&& r is Err ==> r matches Err(Error::Decoding(_))
            },
    {
        match reply {
            DynamicValue::List(rows) => decode_rows(rows),
            _ => Err(Error::malformed("raw rows that are not a list")),
        }
    }
}

/// A query that returned no row answers `first` with `Null`: decoding that into
/// a type without an absent value fails, and into an optional type gives `None`.
pub proof fn law_first_of_no_rows<T: Codec>()
    ensures
        bool::decoding(DynamicValue::Null) is None,
        i32::decoding(DynamicValue::Null) is None,
        i64::decoding(DynamicValue::Null) is None,
        u32::decoding(DynamicValue::Null) is None,
        u64::decoding(DynamicValue::Null) is None,
        String::decoding(DynamicValue::Null) is None,
        Option::<T>::decoding(DynamicValue::Null) == Some(None::<T>),
{
}

/// Binding is a functional update: the statement bound to a value keeps the
/// query and the earlier parameters of the statement it came from and adds the
/// value's encoding last, and binding the same statement to the same value twice
/// gives two statements with the same query and parameters.
pub proof fn law_bind_extends(stmt: D1PreparedStatement, first: D1PreparedStatement, second: D1PreparedStatement, v: DynamicValue)
    requires
        first.query_view() == stmt.query_view(),
        first.params() == stmt.params().push(v),
        second.query_view() == stmt.query_view(),
        second.params() == stmt.params().push(v),
    ensures
        first.query_view() == second.query_view(),
        first.params() == second.params(),
        first.params().take(stmt.params().len() as int) == stmt.params(),
        first.params().last() == v,
{
    assert(first.params().take(stmt.params().len() as int) =~= stmt.params());
}

} // verus!

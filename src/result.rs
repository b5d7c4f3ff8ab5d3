use vstd::prelude::*;

use crate::codec::{Codec, CodecError};
use crate::error::Error;
use crate::value::{lookup, DynamicValue};

verus! {

/// Whether every row decodes as a `T`.
pub open spec fn all_decode<T: Codec>(rows: Seq<DynamicValue>) -> bool {
    forall|i: int| 0 <= i < rows.len() ==> (#[trigger] T::decoding(rows[i])) is Some
}

/// `out` holds the decoding of each row, in the order of the rows.
pub open spec fn decoded_rows<T: Codec>(rows: Seq<DynamicValue>, out: Seq<T>) -> bool {
    &&& out.len() == rows.len()
    &&& forall|i: int| 0 <= i < rows.len() ==> #[trigger] T::decoding(rows[i]) == Some(out[i])
}

/// Decodes each row independently; one row that fails to decode fails the
/// whole call with `Decoding`, and no partial result is returned.
pub fn decode_rows<T: Codec>(rows: &Vec<DynamicValue>) -> (r: Result<Vec<T>, Error>)
    ensures
        r is Ok <==> all_decode::<T>(rows@),
        r matches Ok(out) ==> decoded_rows(rows@, out@),
        r is Err ==> r matches Err(Error::Decoding(_)),
{
    let mut out: Vec<T> = Vec::new();
    let mut i: usize = 0;
    while i < rows.len()
        invariant
            i <= rows@.len(),
            out@.len() == i,
            forall|j: int| 0 <= j < i ==> #[trigger] T::decoding(rows@[j]) == Some(out@[j]),
        decreases rows@.len() - i,
    {
        match T::decode(&rows[i]) {
            Ok(x) => out.push(x),
            Err(CodecError::Decoding(m)) => return Err(Error::Decoding(m)),
            Err(CodecError::Encoding(m)) => return Err(Error::Decoding(m)),
        }
        i = i + 1;
    }
    Ok(out)
}

/// The outcome of one statement: whether it succeeded, the host's diagnostic,
/// and the rows it returned, if any. The rows stay dynamic until asked for.
pub struct D1Result {
    success: bool,
    error: Option<String>,
    rows: Option<Vec<DynamicValue>>,
}

/// What a result envelope holds, as plain values.
pub struct Envelope {
    pub success: bool,
    pub error: Option<Seq<char>>,
    pub rows: Option<Seq<DynamicValue>>,
}

/// The diagnostic member of a reply: missing or `Null` means none.
pub open spec fn optional_text(v: Option<DynamicValue>) -> Option<Option<Seq<char>>> {
    match v {
        None => Some(None),
        Some(DynamicValue::Null) => Some(None),
        Some(DynamicValue::Text(s)) => Some(Some(s@)),
        _ => None,
    }
}

/// The rows member of a reply: missing or `Null` means no row set.
pub open spec fn optional_rows(v: Option<DynamicValue>) -> Option<Option<Seq<DynamicValue>>> {
    match v {
        None => Some(None),
        Some(DynamicValue::Null) => Some(None),
        Some(DynamicValue::List(rows)) => Some(Some(rows@)),
        _ => None,
    }
}

/// The envelope that a reply of the host stands for: a record with a boolean
/// `success`, and optionally a text `error` and a list `results`.
pub open spec fn envelope_of(v: DynamicValue) -> Option<Envelope> {
    match v {
        DynamicValue::Record(fields) => {
            let success = lookup(fields@, "success"@);
            let error = optional_text(lookup(fields@, "error"@));
            let rows = optional_rows(lookup(fields@, "results"@));
            match (success, error, rows) {
                (Some(DynamicValue::Bool(b)), Some(error), Some(rows)) => Some(
                    Envelope { success: b, error, rows },
                ),
                _ => None,
            }
        },
        _ => None,
    }
}

impl D1Result {
    /// The envelope as plain values.
    pub closed spec fn view(&self) -> Envelope {
        Envelope {
            success: self.success,
            error: match self.error {
                Some(s) => Some(s@),
                None => None,
            },
            rows: match self.rows {
                Some(rows) => Some(rows@),
                None => None,
            },
        }
    }

    pub fn new(success: bool, error: Option<String>, rows: Option<Vec<DynamicValue>>) -> (r: D1Result)
        ensures
            r.view().success == success,
            r.view().error == match error {
                Some(s) => Some(s@),
                None => None,
            },
            r.view().rows == match rows {
                Some(rows) => Some(rows@),
                None => None,
            },
    {
        D1Result { success, error, rows }
    }

    /// Reads the envelope out of a reply of the host; a reply of another shape
    /// is a failure of the host boundary.
    pub fn from_reply(reply: DynamicValue) -> (r: Result<D1Result, Error>)
        ensures
            r is Ok <==> envelope_of(reply) is Some,
            r matches Ok(e) ==> envelope_of(reply) == Some(e.view()),
            r is Err ==> r matches Err(Error::HostExecution(_)),
    {
        match reply {
            DynamicValue::Record(fields) => {
                proof {
                    reveal_strlit("success");
                    reveal_strlit("error");
                    reveal_strlit("results");
                    assert("success"@.len() != "error"@.len());
                    assert("results"@.len() != "error"@.len());
                    assert("success"@[0] != "results"@[0]);
                }
                let (success, error, rows) = DynamicValue::take_members(
                    fields,
                    "success",
                    "error",
                    "results",
                );
                let success = match success {
                    Some(DynamicValue::Bool(b)) => b,
                    _ => return Err(Error::malformed("no boolean success flag")),
                };
                let error = match error {
                    None => None,
                    Some(DynamicValue::Null) => None,
                    Some(DynamicValue::Text(s)) => Some(s),
                    _ => return Err(Error::malformed("an error that is not text")),
                };
                let rows = match rows {
                    None => None,
                    Some(DynamicValue::Null) => None,
                    Some(DynamicValue::List(rows)) => Some(rows),
                    _ => return Err(Error::malformed("results that are not a list")),
                };
                Ok(D1Result { success, error, rows })
            },
            _ => Err(Error::malformed("an envelope that is not a record")),
        }
    }

    /// Whether the host reported a clean execution.
    pub fn success(&self) -> (r: bool)
        ensures
            r == self.view().success,
    {
        self.success
    }

    /// The host's diagnostic, if it gave one.
    pub fn error(&self) -> (r: Option<String>)
        ensures
            r matches Some(s) ==> self.view().error == Some(s@),
            r is None ==> self.view().error is None,
    {
        match &self.error {
            Some(s) => Some(s.clone()),
            None => None,
        }
    }

    /// Decodes the row set into typed rows; without a row set the result is an
    /// empty sequence, not a failure.
    pub fn results<T: Codec>(&self) -> (r: Result<Vec<T>, Error>)
        ensures
            self.view().rows is None ==> (r matches Ok(out) && out@.len() == 0),
            self.view().rows matches Some(rows) ==> {
                &&& r is Ok <==> all_decode::<T>(rows)
                &&& r matches Ok(out) ==> decoded_rows(rows, out@)
                &&& r is Err ==> r matches Err(Error::Decoding(_))
            },
    {
        match &self.rows {
            Some(rows) => decode_rows(rows),
            None => Ok(Vec::new()),
        }
    }
}

} // verus!

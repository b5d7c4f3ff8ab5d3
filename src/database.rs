use vstd::prelude::*;

use crate::codec::{decode_member, member_or_null, Codec};
use crate::error::Error;
use crate::result::{envelope_of, D1Result};
use crate::statement::D1PreparedStatement;
use crate::value::DynamicValue;

verus! {

/// A database binding of the host. It holds no state of its own: every
/// operation is one request to the host, whose reply it reads.
pub struct D1Database {
    binding: String,
}

/// What the host reports of a script run by `exec`: the number of statements
/// it ran, where it says.
pub struct D1ExecResult {
    count: Option<u32>,
}

/// Whether every item of a batch reply is a well-formed envelope.
pub open spec fn all_envelopes(items: Seq<DynamicValue>) -> bool {
    forall|i: int| 0 <= i < items.len() ==> (#[trigger] envelope_of(items[i])) is Some
}

/// Whether `out` holds, in order, the envelopes that `items` stand for.
pub open spec fn envelopes_of(items: Seq<DynamicValue>, out: Seq<D1Result>) -> bool {
    &&& out.len() == items.len()
    &&& forall|i: int| 0 <= i < items.len() ==> #[trigger] envelope_of(items[i]) == Some(out[i].view())
}

/// Whether a reply to a batch of `n` statements is well formed: a list of
/// exactly `n` envelopes.
pub open spec fn batch_reply_ok(n: nat, reply: DynamicValue) -> bool {
    reply matches DynamicValue::List(items) && items@.len() == n && all_envelopes(items@)
}

impl D1ExecResult {
    pub closed spec fn count_view(&self) -> Option<u32> {
        self.count
    }

    /// The number of statements that the host ran, where it says.
    pub fn count(&self) -> (r: Option<u32>)
        ensures
            r == self.count_view(),
    {
        self.count
    }
}

impl D1Database {
    pub closed spec fn binding_view(&self) -> Seq<char> {
        self.binding@
    }

    /// The handle for the binding of the given name.
    pub fn new(binding: &str) -> (r: D1Database)
        ensures
            r.binding_view() == binding@,
    {
        D1Database { binding: binding.to_owned() }
    }

    /// The name of the binding.
    pub fn binding(&self) -> (r: &str)
        ensures
            r@ == self.binding_view(),
    {
        self.binding.as_str()
    }

    /// A statement for `query` with nothing bound; the query is checked by the
    /// host when the statement runs, not here.
    pub fn prepare(&self, query: &str) -> (r: D1PreparedStatement)
        ensures
            r.query_view() == query@,
            r.params().len() == 0,
    {
        D1PreparedStatement::new(query)
    }

    /// Reads the host's reply to a batch of `statements`: one envelope per
    /// statement, in the order of the statements. A statement that the
    /// database refused is an envelope whose `success` is false, not an error;
    /// a reply of another shape or length is a failure of the host boundary.
    pub fn batch(&self, statements: &Vec<D1PreparedStatement>, reply: DynamicValue) -> (r: Result<
        Vec<D1Result>,
        Error,
    >)
        ensures
            r is Ok <==> batch_reply_ok(statements@.len(), reply),
            r matches Ok(out) ==> reply matches DynamicValue::List(items) && envelopes_of(
                items@,
                out@,
            ),
            r is Err ==> r matches Err(Error::HostExecution(_)),
    {
        let ghost original = reply;
        let mut items = match reply {
            DynamicValue::List(items) => items,
            _ => return Err(Error::malformed("a batch reply that is not a list")),
        };
        let ghost all = items@;
        if items.len() != statements.len() {
            return Err(Error::malformed("a batch reply of another length"));
        }
        // Read the envelopes from the last one back, then restore their order.
        let mut reversed: Vec<D1Result> = Vec::new();
        while items.len() > 0
            invariant
                items@ == all.take(items@.len() as int),
                original matches DynamicValue::List(v) && v@ == all,
                original == reply,
                all.len() == statements@.len(),
                items@.len() + reversed@.len() == all.len(),
                forall|j: int|
                    0 <= j < reversed@.len() ==> #[trigger] envelope_of(all[all.len() - 1 - j])
                        == Some(reversed@[j].view()),
                forall|j: int| items@.len() <= j < all.len() ==> #[trigger] envelope_of(all[j]) is Some,
            decreases items@.len(),
        {
            let ghost k = items@.len() - 1;
            let item = items.pop().unwrap();
            assert(items@ =~= all.take(items@.len() as int));
            assert(item == all[k]);
            match D1Result::from_reply(item) {
                Ok(e) => reversed.push(e),
                Err(e) => {
                    assert(envelope_of(all[k]) is None);
                    assert(!all_envelopes(all));
                    return Err(e);
                },
            }
        }
        let mut out: Vec<D1Result> = Vec::new();
        while reversed.len() > 0
            invariant
                reversed@.len() + out@.len() == all.len(),
                original matches DynamicValue::List(v) && v@ == all,
                original == reply,
                all.len() == statements@.len(),
                all_envelopes(all),
                forall|j: int|
                    0 <= j < reversed@.len() ==> #[trigger] envelope_of(all[all.len() - 1 - j])
                        == Some(reversed@[j].view()),
                forall|j: int| 0 <= j < out@.len() ==> #[trigger] envelope_of(all[j]) == Some(out@[j].view()),
            decreases reversed@.len(),
        {
            let ghost before = reversed@;
            let e = reversed.pop().unwrap();
            assert(envelope_of(all[all.len() - 1 - (before.len() - 1)]) == Some(e.view()));
            out.push(e);
        }
        assert(all_envelopes(all));
        Ok(out)
    }

    /// Reads the host's reply to `exec`: a record whose `count` member, when
    /// present and not `Null`, is the number of statements run.
    pub fn exec(&self, reply: &DynamicValue) -> (r: Result<D1ExecResult, Error>)
        ensures
            r is Ok <==> (reply is Record && Option::<u32>::decoding(member_or_null(*reply, "count"@)) is Some),
            r matches Ok(e) ==> Option::<u32>::decoding(member_or_null(*reply, "count"@)) == Some(e.count_view()),
            r is Err ==> r matches Err(Error::HostExecution(_)),
    {
        if let DynamicValue::Record(_) = reply {
            proof {
                reveal_strlit("count");
            }
            match decode_member::<Option<u32>>(reply, "count") {
                Ok(count) => Ok(D1ExecResult { count }),
                Err(_) => Err(Error::malformed("a count that is not a 32-bit count")),
            }
        } else {
            Err(Error::malformed("an exec result that is not a record"))
        }
    }

    /// Reads the host's reply to `dump`: the whole snapshot as one buffer.
    pub fn dump(&self, reply: DynamicValue) -> (r: Result<Vec<u8>, Error>)
        ensures
            r is Ok <==> reply is Bytes,
            r matches Ok(bytes) ==> reply == DynamicValue::Bytes(bytes),
            r is Err ==> r matches Err(Error::HostExecution(_)),
    {
        match reply {
            DynamicValue::Bytes(bytes) => Ok(bytes),
            _ => Err(Error::malformed("a snapshot that is not a byte buffer")),
        }
    }
}

/// A well-formed reply to a batch gives exactly one envelope per statement,
/// each the envelope of the reply's item in the same place.
pub proof fn law_batch_keeps_order(n: nat, reply: DynamicValue, out: Seq<D1Result>, i: int)
    requires
        batch_reply_ok(n, reply),
        reply matches DynamicValue::List(items) && envelopes_of(items@, out),
        0 <= i < n,
    ensures
        out.len() == n,
        reply matches DynamicValue::List(items) && envelope_of(items@[i]) == Some(out[i].view()),
{
}

} // verus!

use vstd::prelude::*;

verus! {

/// A value as the host hands it over, before it is given a static type.
#[derive(Debug)]
pub enum DynamicValue {
    Null,
    Bool(bool),
    Integer(i64),
    Text(String),
    Bytes(Vec<u8>),
    List(Vec<DynamicValue>),
    Record(Vec<Field>),
}

/// One named member of a record.
#[derive(Debug)]
pub struct Field {
    pub name: String,
    pub value: DynamicValue,
}

/// The value of the last field called `name`, if any; a later field shadows an
/// earlier one of the same name.
pub open spec fn lookup(fields: Seq<Field>, name: Seq<char>) -> Option<DynamicValue>
    decreases fields.len(),
{
    if fields.len() == 0 {
        None
    } else if fields.last().name@ == name {
        Some(fields.last().value)
    } else {
        lookup(fields.drop_last(), name)
    }
}

/// What `DynamicValue::get` finds under `name` in `v`.
pub open spec fn member(v: DynamicValue, name: Seq<char>) -> Option<DynamicValue> {
    match v {
        DynamicValue::Record(fields) => lookup(fields@, name),
        _ => None,
    }
}

impl DynamicValue {
    /// Looks a member of a record up by name; a value that is not a record has none.
    pub fn get(&self, name: &str) -> (r: Option<&DynamicValue>)
        ensures
            member(*self, name@) == match r {
                Some(v) => Some(*v),
                None => None,
            },
    {
        match self {
            DynamicValue::Record(fields) => {
                let key = name.to_owned();
                let mut i: usize = fields.len();
                assert(fields@.take(i as int) =~= fields@);
                while i > 0
                    invariant
                        i <= fields@.len(),
                        key@ == name@,
                        member(*self, name@) == lookup(fields@, name@),
                        lookup(fields@, name@) == lookup(fields@.take(i as int), name@),
                    decreases i,
                {
                    let f = &fields[i - 1];
                    assert(fields@.take(i as int).drop_last() =~= fields@.take(i - 1));
                    assert(fields@.take(i as int).last() == fields@[i - 1]);
                    if f.name == key {
                        assert(lookup(fields@.take(i as int), name@) == Some(f.value));
                        return Some(&f.value);
                    }
                    i = i - 1;
                }
                None
            },
            _ => None,
        }
    }

    /// Removes the members of a record and returns the value of the last one
    /// of each of three distinct names, in the order of the names.
    pub fn take_members(fields: Vec<Field>, first: &str, second: &str, third: &str) -> (r: (
        Option<DynamicValue>,
        Option<DynamicValue>,
        Option<DynamicValue>,
    ))
        requires
            first@ != second@,
            first@ != third@,
            second@ != third@,
        ensures
            r.0 == lookup(fields@, first@),
            r.1 == lookup(fields@, second@),
            r.2 == lookup(fields@, third@),
    {
        let ghost all = fields@;
        let key_a = first.to_owned();
        let key_b = second.to_owned();
        let key_c = third.to_owned();
        let mut rest = fields;
        let mut a: Option<DynamicValue> = None;
        let mut b: Option<DynamicValue> = None;
        let mut c: Option<DynamicValue> = None;
        while rest.len() > 0
            invariant
                key_a@ == first@,
                first@ != second@,
                first@ != third@,
                second@ != third@,
                key_b@ == second@,
                key_c@ == third@,
                rest@ == all.take(rest@.len() as int),
                rest@.len() <= all.len(),
                a is Some ==> a == lookup(all, first@),
                a is None ==> lookup(all, first@) == lookup(rest@, first@),
                b is Some ==> b == lookup(all, second@),
                b is None ==> lookup(all, second@) == lookup(rest@, second@),
                c is Some ==> c == lookup(all, third@),
                c is None ==> lookup(all, third@) == lookup(rest@, third@),
            decreases rest@.len(),
        {
            let ghost before = rest@;
            let f = rest.pop().unwrap();
            assert(rest@ =~= all.take(rest@.len() as int));
            assert(before.drop_last() =~= rest@);
            let Field { name, value } = f;
            assert(before.last().name == name && before.last().value == value);
            assert(lookup(before, first@) == if name@ == first@ {
                Some(value)
            } else {
                lookup(rest@, first@)
            });
            assert(lookup(before, second@) == if name@ == second@ {
                Some(value)
            } else {
                lookup(rest@, second@)
            });
            assert(lookup(before, third@) == if name@ == third@ {
                Some(value)
            } else {
                lookup(rest@, third@)
            });
            if a.is_none() && name == key_a {
                a = Some(value);
            } else if b.is_none() && name == key_b {
                b = Some(value);
            } else if c.is_none() && name == key_c {
                c = Some(value);
            }
        }
        (a, b, c)
    }
}

} // verus!

use crate::error::DecodeError;
use crate::header::{decode_error, header_decodes, header_of, DBHeader};
use crate::parts::Part;
use vstd::prelude::*;

verus! {

/// The bytes of the first database in `db` that is named `name`.
pub open spec fn lookup(db: Seq<(String, Vec<u8>)>, name: Seq<char>) -> Seq<u8>
    decreases db.len(),
{
    if db.len() == 0 {
        Seq::empty()
    } else if db[0].0@ == name {
        db[0].1@
    } else {
        lookup(db.drop_first(), name)
    }
}

/// Does `db` hold a database named `name`?
pub open spec fn has_name(db: Seq<(String, Vec<u8>)>, name: Seq<char>) -> bool {
    exists|i: int| 0 <= i < db.len() && #[trigger] db[i].0@ == name
}

/// A catalog of named database files and the parts decoded from the one that
/// is selected, in display order.
#[derive(Debug)]
pub struct Viewer {
    pub include_db: Vec<(String, Vec<u8>)>,
    pub parts: Vec<Part>,
}

impl Viewer {
    /// Selects the database named `name` in the catalog and decodes its parts;
    /// the header is the first and only one.
    pub fn new_from_included(include_db: Vec<(String, Vec<u8>)>, name: &str) -> (r: Result<
        Self,
        DecodeError,
    >)
        requires
            has_name(include_db@, name@),
        ensures
            match r {
                Ok(v) => {
                    &&& v.include_db@ == include_db@
                    &&& header_decodes(lookup(include_db@, name@))
                    &&& v.parts@.len() == 1
                    &&& v.parts@[0] is Header
                    &&& v.parts@[0]->Header_0@ == header_of(lookup(include_db@, name@))
                },
                Err(e) => !header_decodes(lookup(include_db@, name@)) && e == decode_error(
                    lookup(include_db@, name@),
                ),
            },
    {
        let key = name.to_owned();
        let mut i: usize = 0;
        assert(include_db@.subrange(0, include_db@.len() as int) =~= include_db@);
        while i < include_db.len() && !(include_db[i].0 == key)
            invariant
                i <= include_db@.len(),
                key@ == name@,
                has_name(include_db@.subrange(i as int, include_db@.len() as int), name@),
                lookup(include_db@, name@) == lookup(
                    include_db@.subrange(i as int, include_db@.len() as int),
                    name@,
                ),
            decreases include_db@.len() - i,
        {
            proof {
                let rest = include_db@.subrange(i as int, include_db@.len() as int);
                let next = include_db@.subrange(i + 1, include_db@.len() as int);
                assert(rest.drop_first() =~= next);
                let k = choose|k: int| 0 <= k < rest.len() && #[trigger] rest[k].0@ == name@;
                assert(k != 0);
                assert(next[k - 1] == rest[k]);
            }
            i = i + 1;
        }
        proof {
            // The name is in the part still to be searched, so it is not empty.
            let rest = include_db@.subrange(i as int, include_db@.len() as int);
            assert(rest.len() > 0);
        }
        proof {
            let rest = include_db@.subrange(i as int, include_db@.len() as int);
            assert(rest[0] == include_db@[i as int]);
            assert(rest[0].0@ == name@);
            assert(lookup(rest, name@) == include_db@[i as int].1@);
        }
        let header = match DBHeader::decode(include_db[i].1.as_slice()) {
            Ok(h) => h,
            Err(e) => {
                return Err(e);
            },
        };
        let mut parts: Vec<Part> = Vec::new();
        parts.push(Part::Header(header));
        Ok(Self { include_db, parts })
    }

    /// The names of the databases in the catalog, in catalog order.
    pub fn included_dbnames(&self) -> (r: Vec<String>)
        ensures
            r@.len() == self.include_db@.len(),
            forall|i: int| 0 <= i < r@.len() ==> #[trigger] r@[i]@ == self.include_db@[i].0@,
    {
        let mut names: Vec<String> = Vec::new();
        let mut i: usize = 0;
        while i < self.include_db.len()
            invariant
                i <= self.include_db@.len(),
                names@.len() == i,
                forall|j: int| 0 <= j < i ==> #[trigger] names@[j]@ == self.include_db@[j].0@,
            decreases self.include_db@.len() - i,
        {
            names.push(self.include_db[i].0.clone());
            i = i + 1;
        }
        names
    }

    /// The first part of the selected database.
    pub fn first_part(&self) -> (r: &Part)
        requires
            self.parts@.len() > 0,
        ensures
            r == self.parts@[0],
    {
        &self.parts[0]
    }
}

} // verus!

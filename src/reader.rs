use crate::error::DecodeError;
use crate::header::{decode_error, header_decodes, header_of, DBHeader};
use std::rc::Rc;
use vstd::prelude::*;

verus! {

/// The decoded structure of a database file, shared by whoever displays it.
#[derive(Debug)]
pub struct Reader {
    pub header: Rc<DBHeader>,
}

impl Reader {
    /// Decodes the header at the start of `bytes`.
    pub fn new(bytes: &[u8]) -> (r: Result<Self, DecodeError>)
        ensures
            match r {
                Ok(rd) => header_decodes(bytes@) && rd.header@ == header_of(bytes@),
                Err(e) => !header_decodes(bytes@) && e == decode_error(bytes@),
            },
    {
        let header = DBHeader::decode(bytes)?;
        Ok(Self { header: Rc::new(header) })
    }
}

} // verus!

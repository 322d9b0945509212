//! `field_info` structure.
use vstd::prelude::*;
use crate::spec::access::FieldAccess;
use crate::spec::attribute::Attribute;

verus! {

#[derive(Debug)]
pub struct Field {
    pub access_flags: FieldAccess,
    pub name_index: u16,
    pub descriptor_index: u16,
    pub attributes: Vec<Attribute>,
}

impl Default for Field {
    fn default() -> (r: Self)
        ensures
            r.access_flags@ == 0,
            r.name_index == 0,
            r.descriptor_index == 0,
            r.attributes@.len() == 0,
    {
        Field { access_flags: FieldAccess::default(), name_index: 0, descriptor_index: 0, attributes: Vec::new() }
    }
}

} // verus!

//! `method_info` structure.
use vstd::prelude::*;
use crate::spec::access::MethodAccess;
use crate::spec::attribute::Attribute;

verus! {

#[derive(Debug)]
pub struct Method {
    pub access_flags: MethodAccess,
    pub name_index: u16,
    pub descriptor_index: u16,
    pub attributes: Vec<Attribute>,
}

impl Default for Method {
    fn default() -> (r: Self)
        ensures
            r.access_flags@ == 0,
            r.name_index == 0,
            r.descriptor_index == 0,
            r.attributes@.len() == 0,
    {
        Method { access_flags: MethodAccess::default(), name_index: 0, descriptor_index: 0, attributes: Vec::new() }
    }
}

} // verus!

//! Attributes of the singleton `binding` element.

use vstd::prelude::*;
use crate::dom::AttrName;
use crate::error::Error;
use crate::toast::binding_attr_set;
use crate::toast::Toast;

verus! {

impl Toast {
    /// Lets the platform append a scale/contrast/language query string to
    /// image URIs below the binding.
    pub fn binding_add_image_query(&mut self) -> (r: Result<(), Error>)
        requires
            old(self).wf(),
        ensures
            r is Ok,
            final(self).wf(),
            binding_attr_set(*old(self), *final(self), AttrName::AddImageQuery, "true"@),
    {
        self.set_binding_attr(AttrName::AddImageQuery, String::from_str("true"));
        Ok(())
    }

    /// Sets the default base URI combined with relative image source URIs.
    pub fn binding_base_uri(&mut self, base_uri: &str) -> (r: Result<(), Error>)
        requires
            old(self).wf(),
        ensures
            r is Ok,
            final(self).wf(),
            binding_attr_set(*old(self), *final(self), AttrName::BaseUri, base_uri@),
    {
        self.set_binding_attr(AttrName::BaseUri, String::from_str(base_uri));
        Ok(())
    }

    /// Names a fallback template for backward compatibility.
    pub fn binding_fallback(&mut self, fallback: &str) -> (r: Result<(), Error>)
        requires
            old(self).wf(),
        ensures
            r is Ok,
            final(self).wf(),
            binding_attr_set(*old(self), *final(self), AttrName::Fallback, fallback@),
    {
        self.set_binding_attr(AttrName::Fallback, String::from_str(fallback));
        Ok(())
    }
}

} // verus!

//! Attributes of the singleton `visual` element.

use vstd::prelude::*;
use crate::dom::AttrName;
use crate::error::Error;
use crate::toast::visual_attr_set;
use crate::toast::Toast;

verus! {

impl Toast {
    /// Lets the platform append a scale/contrast/language query string to
    /// image URIs below the visual.
    pub fn visual_add_image_query(&mut self) -> (r: Result<(), Error>)
        requires
            old(self).wf(),
        ensures
            r is Ok,
            final(self).wf(),
            visual_attr_set(*old(self), *final(self), AttrName::AddImageQuery, "true"@),
    {
        self.set_visual_attr(AttrName::AddImageQuery, String::from_str("true"));
        Ok(())
    }

    /// Sets the default base URI combined with relative image source URIs.
    pub fn visual_base_uri(&mut self, base_uri: &str) -> (r: Result<(), Error>)
        requires
            old(self).wf(),
        ensures
            r is Ok,
            final(self).wf(),
            visual_attr_set(*old(self), *final(self), AttrName::BaseUri, base_uri@),
    {
        self.set_visual_attr(AttrName::BaseUri, String::from_str(base_uri));
        Ok(())
    }
}

} // verus!

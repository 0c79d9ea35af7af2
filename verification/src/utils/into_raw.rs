//! The serializable-element capability every tag builder implements.

use vstd::prelude::*;
use crate::dom::Element;
use crate::error::is_reserved_id_error;
use crate::error::Error;

verus! {

/// Conversion of a configured tag builder into exactly one document element.
///
/// The conversion is pure: it creates one element (with children for the
/// self-contained tags) and never touches any document. The caller appends
/// the returned element to the right parent. A builder that carries the
/// reserved text id `0` is rejected before any element is created.
pub trait ToXML: Sized {
    /// Which configurations convert successfully.
    spec fn valid(&self) -> bool;

    /// What the produced element looks like for this configuration.
    spec fn element_rep(&self, el: Element) -> bool;

    /// Converts this builder into one document element.
    fn into_element(self) -> (r: Result<Element, Error>)
        ensures
            r is Ok <==> self.valid(),
            r matches Ok(el) ==> self.element_rep(el),
            r matches Err(e) ==> is_reserved_id_error(e),
    ;
}

} // verus!

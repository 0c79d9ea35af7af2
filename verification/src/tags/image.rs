//! The `image` tag: an inline, logo-override or hero image of the toast.

use vstd::prelude::*;
use crate::decimal::dec_str;
use crate::decimal::i32_to_string;
use crate::dom::AttrName;
use crate::dom::Element;
use crate::dom::Tag;
use crate::error::Error;
use crate::toast::binding_appended;
use crate::toast::lemma_wf_after_binding_push;
use crate::toast::Toast;
use crate::utils::into_raw::ToXML;
use crate::xml::bool_literal;
use crate::xml::bool_str;

verus! {

/// Where the image is placed.
#[derive(Debug, Clone, Copy, PartialEq, Eq, Structural, Hash)]
pub enum Placement {
    /// The image replaces the app's logo in the toast.
    AppLogoOverride,
    /// The image is displayed as a hero image.
    Hero,
}

/// The attribute value of a placement.
pub open spec fn placement_str(p: Placement) -> Seq<char> {
    match p {
        Placement::AppLogoOverride => "appLogoOverride"@,
        Placement::Hero => "hero"@,
    }
}

impl Placement {
    /// The placement's attribute value as a string.
    pub fn to_string(&self) -> (r: String)
        ensures
            r@ == placement_str(*self),
    {
        match self {
            Placement::AppLogoOverride => String::from_str("appLogoOverride"),
            Placement::Hero => String::from_str("hero"),
        }
    }
}

/// How the image is cropped.
#[derive(Debug, Clone, Copy, PartialEq, Eq, Structural, Hash)]
pub enum Crop {
    /// Not cropped; displayed as a square.
    Square,
    /// Cropped into a circle.
    Circle,
}

/// The attribute value of a crop: the empty string when uncropped.
pub open spec fn crop_str(c: Crop) -> Seq<char> {
    match c {
        Crop::Square => ""@,
        Crop::Circle => "circle"@,
    }
}

impl Crop {
    /// The crop's attribute value as a string.
    pub fn to_string(&self) -> (r: String)
        ensures
            r@ == crop_str(*self),
    {
        match self {
            Crop::Square => String::from_str(""),
            Crop::Circle => String::from_str("circle"),
        }
    }
}

/// An image configuration: the source URI, and the optional query-string
/// permission, description, id, placement and crop.
#[derive(Debug, Clone)]
pub struct Image {
    /// Let the platform append a scale/contrast/language query string to
    /// the image URI.
    pub add_image_query: bool,
    /// A description of the image for assistive technologies.
    pub alt: String,
    /// The image position in the template this image is intended for.
    pub id: Option<i32>,
    /// The URI of the image source: `http(s)://`, `ms-appx:///`,
    /// `ms-appdata:///local/`, or `file:///`.
    pub src: String,
    /// Where the image is placed.
    pub placement: Placement,
    /// How the image is cropped.
    pub hint_crop: Crop,
}

impl Image {
    /// An image with the given source, no description, logo-override
    /// placement and no crop.
    pub fn new(src: &str) -> (im: Image)
        ensures
            !im.add_image_query,
            im.alt@.len() == 0,
            im.id is None,
            im.src@ == src@,
            im.placement == Placement::AppLogoOverride,
            im.hint_crop == Crop::Square,
    {
        Image {
            add_image_query: false,
            alt: String::new(),
            id: None,
            src: String::from_str(src),
            placement: Placement::AppLogoOverride,
            hint_crop: Crop::Square,
        }
    }

    /// Sets the id of the image element.
    pub fn set_id(self, id: i32) -> (im: Image)
        ensures
            im == (Image { id: Some(id), ..self }),
    {
        Image { id: Some(id), ..self }
    }

    /// Sets the description for assistive technologies.
    pub fn set_alt(self, alt: String) -> (im: Image)
        ensures
            im == (Image { alt, ..self }),
    {
        Image { alt, ..self }
    }

    /// Chooses where the image is placed.
    pub fn set_placement(self, placement: Placement) -> (im: Image)
        ensures
            im == (Image { placement, ..self }),
    {
        Image { placement, ..self }
    }

    /// Chooses how the image is cropped.
    pub fn set_hint_crop(self, hint_crop: Crop) -> (im: Image)
        ensures
            im == (Image { hint_crop, ..self }),
    {
        Image { hint_crop, ..self }
    }
}

/// The element an image converts to. `addImageQuery` and `alt` are always
/// emitted (as `"true"`/`"false"` and a possibly empty string), the id only
/// when configured, and `src`, `placement` and `hint-crop` always —
/// `hint-crop=""` for an uncropped image.
pub open spec fn image_element_rep(el: Element, im: Image) -> bool {
    let n_id: int = if im.id is Some {
        1
    } else {
        0
    };
    &&& el.tag == Tag::Image
    &&& el.text@.len() == 0
    &&& el.children@.len() == 0
    &&& el.attrs@.len() == 5 + n_id
    &&& el.attrs@[0].name == AttrName::AddImageQuery && el.attrs@[0].value@ == bool_str(
        im.add_image_query,
    )
    &&& el.attrs@[1].name == AttrName::Alt && el.attrs@[1].value@ == im.alt@
    &&& im.id matches Some(i) ==> el.attrs@[2].name == AttrName::Id && el.attrs@[2].value@
        == dec_str(i as int)
    &&& el.attrs@[2 + n_id].name == AttrName::Src && el.attrs@[2 + n_id].value@ == im.src@
    &&& el.attrs@[3 + n_id].name == AttrName::Placement && el.attrs@[3 + n_id].value@
        == placement_str(im.placement)
    &&& el.attrs@[4 + n_id].name == AttrName::HintCrop && el.attrs@[4 + n_id].value@ == crop_str(
        im.hint_crop,
    )
}

impl ToXML for Image {
    /// Every image configuration converts.
    open spec fn valid(&self) -> bool {
        true
    }

    open spec fn element_rep(&self, el: Element) -> bool {
        image_element_rep(el, *self)
    }

    /// Builds the `image` element.
    fn into_element(self) -> (r: Result<Element, Error>) {
        let mut el = Element::new(Tag::Image);
        el.set_attribute(AttrName::AddImageQuery, String::from_str(bool_literal(self.add_image_query)));
        proof {
            crate::dom::lemma_attr_search(el.attrs@, AttrName::Alt);
        }
        el.set_attribute(AttrName::Alt, self.alt);
        if let Some(i) = self.id {
            proof {
                crate::dom::lemma_attr_search(el.attrs@, AttrName::Id);
            }
            el.set_attribute(AttrName::Id, i32_to_string(i));
        }
        proof {
            crate::dom::lemma_attr_search(el.attrs@, AttrName::Src);
        }
        el.set_attribute(AttrName::Src, self.src);
        proof {
            crate::dom::lemma_attr_search(el.attrs@, AttrName::Placement);
        }
        el.set_attribute(AttrName::Placement, self.placement.to_string());
        proof {
            crate::dom::lemma_attr_search(el.attrs@, AttrName::HintCrop);
        }
        el.set_attribute(AttrName::HintCrop, self.hint_crop.to_string());
        Ok(el)
    }
}

impl Toast {
    /// Appends the configured image element under the binding.
    pub fn add_image(&mut self, image: Image) -> (r: Result<(), Error>)
        requires
            old(self).wf(),
        ensures
            r is Ok,
            final(self).wf(),
            binding_appended(
                *old(self),
                *final(self),
                final(self).binding_elem().children@.last(),
            ),
            image_element_rep(final(self).binding_elem().children@.last(), image),
    {
        let ghost img = image;
        let el = match image.into_element() {
            Ok(el) => el,
            Err(e) => {
                return Err(e);
            },
        };
        let ghost elg = el;
        let ghost pre = *self;
        self.push_binding_child(el);
        proof {
            lemma_wf_after_binding_push(pre, *self, elg);
        }
        Ok(())
    }
}

} // verus!

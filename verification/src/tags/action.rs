//! The `action` tag: a button (or context-menu entry) of the toast.

use vstd::prelude::*;
use crate::dom::AttrName;
use crate::dom::Element;
use crate::dom::Tag;
use crate::error::Error;
use crate::toast::actions_appended;
use crate::toast::lemma_wf_after_actions_push;
use crate::toast::Toast;

verus! {

/// How the platform activates the application when the user presses the
/// action.
#[derive(Debug, Clone, Copy, PartialEq, Eq, Structural, Hash)]
pub enum ActivationType {
    /// The foreground app is launched.
    Forground,
    /// The corresponding background task is triggered without interrupting
    /// the user.
    Background,
    /// A different app is launched through protocol activation.
    Protocol,
}

impl Default for ActivationType {
    /// Foreground activation is the default.
    fn default() -> (r: Self)
        ensures
            r == ActivationType::Forground,
    {
        ActivationType::Forground
    }
}

/// The attribute value of an activation type.
pub open spec fn activation_str(a: ActivationType) -> Seq<char> {
    match a {
        ActivationType::Forground => "foreground"@,
        ActivationType::Background => "background"@,
        ActivationType::Protocol => "protocol"@,
    }
}

impl ActivationType {
    /// The activation type's attribute value as a string.
    pub fn to_string(&self) -> (r: String)
        ensures
            r@ == activation_str(*self),
    {
        match self {
            ActivationType::Forground => String::from_str("foreground"),
            ActivationType::Background => String::from_str("background"),
            ActivationType::Protocol => String::from_str("protocol"),
        }
    }
}

/// The style of a button when the toast root enables styled buttons.
#[derive(Debug, Clone, Copy, PartialEq, Eq, Structural, Hash)]
pub enum ButtonStyle {
    /// A green button.
    Success,
    /// A red button.
    Critical,
}

/// The attribute value of a button style.
pub open spec fn button_style_str(b: ButtonStyle) -> Seq<char> {
    match b {
        ButtonStyle::Success => "Success"@,
        ButtonStyle::Critical => "Critical"@,
    }
}

impl ButtonStyle {
    /// The button style's attribute value as a string.
    pub fn to_string(&self) -> (r: String)
        ensures
            r@ == button_style_str(*self),
    {
        match self {
            ButtonStyle::Success => String::from_str("Success"),
            ButtonStyle::Critical => String::from_str("Critical"),
        }
    }
}

/// A button configuration: its label, the argument string handed back to
/// the application, and the optional behaviour and styling fields.
#[derive(Debug, Clone)]
pub struct Action {
    /// The content displayed on the button.
    pub content: String,
    /// App-defined arguments the app receives when this button is pressed.
    pub arguments: String,
    /// How the app is activated by this button.
    pub activation_type: Option<ActivationType>,
    /// Place the action in the toast's context menu instead of a button.
    pub context_menu: bool,
    /// The URI of a 16x16 white transparent button icon; either all buttons
    /// of a toast carry icons or none.
    pub image_uri: Option<String>,
    /// The id of an input beside which the button is positioned.
    pub hint_input_id: Option<String>,
    /// The button style; the root's `useButtonStyle` must be set.
    pub hint_button_style: Option<ButtonStyle>,
    /// The tooltip for a button with an empty content string.
    pub hint_tooltip: Option<String>,
}

impl Action {
    /// A button with the given label and argument string.
    pub fn new(content: String, arguments: String) -> (a: Action)
        ensures
            a.content == content,
            a.arguments == arguments,
            a.activation_type is None,
            !a.context_menu,
            a.image_uri is None,
            a.hint_input_id is None,
            a.hint_button_style is None,
            a.hint_tooltip is None,
    {
        Action {
            content,
            arguments,
            activation_type: None,
            context_menu: false,
            image_uri: None,
            hint_input_id: None,
            hint_button_style: None,
            hint_tooltip: None,
        }
    }

    /// Chooses the activation type.
    pub fn activation_type(self, activation_type: ActivationType) -> (a: Action)
        ensures
            a == (Action { activation_type: Some(activation_type), ..self }),
    {
        Action { activation_type: Some(activation_type), ..self }
    }

    /// Moves the action into the toast's context menu.
    pub fn context_menu(self) -> (a: Action)
        ensures
            a == (Action { context_menu: true, ..self }),
    {
        Action { context_menu: true, ..self }
    }

    /// Sets the button icon URI.
    pub fn image_uri(self, image_uri: String) -> (a: Action)
        ensures
            a == (Action { image_uri: Some(image_uri), ..self }),
    {
        Action { image_uri: Some(image_uri), ..self }
    }

    /// Positions the button beside the input with the given id.
    pub fn hint_input_id(self, hint_input_id: String) -> (a: Action)
        ensures
            a == (Action { hint_input_id: Some(hint_input_id), ..self }),
    {
        Action { hint_input_id: Some(hint_input_id), ..self }
    }

    /// Chooses the button style.
    pub fn hint_button_style(self, hint_button_style: ButtonStyle) -> (a: Action)
        ensures
            a == (Action { hint_button_style: Some(hint_button_style), ..self }),
    {
        Action { hint_button_style: Some(hint_button_style), ..self }
    }

    /// Sets the tooltip shown for a button with empty content.
    pub fn hint_tooltip(self, hint_tooltip: String) -> (a: Action)
        ensures
            a == (Action { hint_tooltip: Some(hint_tooltip), ..self }),
    {
        Action { hint_tooltip: Some(hint_tooltip), ..self }
    }
}

/// The element an action converts to: `content` and `arguments` always, then
/// one attribute per configured optional field, in the fixed order
/// activation type, context-menu placement, icon, input id, style, tooltip.
pub open spec fn action_element_rep(el: Element, a: Action) -> bool {
    let n_at: int = if a.activation_type is Some {
        1
    } else {
        0
    };
    let n_cm: int = if a.context_menu {
        1
    } else {
        0
    };
    let n_iu: int = if a.image_uri is Some {
        1
    } else {
        0
    };
    let n_ii: int = if a.hint_input_id is Some {
        1
    } else {
        0
    };
    let n_bs: int = if a.hint_button_style is Some {
        1
    } else {
        0
    };
    let n_tt: int = if a.hint_tooltip is Some {
        1
    } else {
        0
    };
    &&& el.tag == Tag::Action
    &&& el.text@.len() == 0
    &&& el.children@.len() == 0
    &&& el.attrs@.len() == 2 + n_at + n_cm + n_iu + n_ii + n_bs + n_tt
    &&& el.attrs@[0].name == AttrName::Content && el.attrs@[0].value@ == a.content@
    &&& el.attrs@[1].name == AttrName::Arguments && el.attrs@[1].value@ == a.arguments@
    &&& a.activation_type matches Some(at) ==> el.attrs@[2].name == AttrName::ActivationType
        && el.attrs@[2].value@ == activation_str(at)
    &&& a.context_menu ==> el.attrs@[2 + n_at].name == AttrName::Placement && el.attrs@[2
        + n_at].value@ == "contextMenu"@
    &&& a.image_uri matches Some(u) ==> el.attrs@[2 + n_at + n_cm].name == AttrName::ImageUri
        && el.attrs@[2 + n_at + n_cm].value@ == u@
    &&& a.hint_input_id matches Some(h) ==> el.attrs@[2 + n_at + n_cm + n_iu].name
        == AttrName::HintInputId && el.attrs@[2 + n_at + n_cm + n_iu].value@ == h@
    &&& a.hint_button_style matches Some(b) ==> el.attrs@[2 + n_at + n_cm + n_iu + n_ii].name
        == AttrName::HintButtonStyle && el.attrs@[2 + n_at + n_cm + n_iu + n_ii].value@
        == button_style_str(b)
    &&& a.hint_tooltip matches Some(tt) ==> el.attrs@[2 + n_at + n_cm + n_iu + n_ii + n_bs].name
        == AttrName::HintTooltip && el.attrs@[2 + n_at + n_cm + n_iu + n_ii + n_bs].value@ == tt@
}

impl Toast {
    /// Appends a custom action to the toast's `actions` root.
    pub fn add_action(&mut self, action: Action) -> (r: Result<(), Error>)
        requires
            old(self).wf(),
        ensures
            r is Ok,
            final(self).wf(),
            actions_appended(
                *old(self),
                *final(self),
                final(self).actions_elem().children@.last(),
            ),
            action_element_rep(final(self).actions_elem().children@.last(), action),
    {
        let ghost a = action;
        let mut el = Element::new(Tag::Action);
        el.set_attribute(AttrName::Content, action.content);
        proof {
            crate::dom::lemma_attr_search(el.attrs@, AttrName::Arguments);
        }
        el.set_attribute(AttrName::Arguments, action.arguments);
        if let Some(at) = action.activation_type {
            proof {
                crate::dom::lemma_attr_search(el.attrs@, AttrName::ActivationType);
            }
            el.set_attribute(AttrName::ActivationType, at.to_string());
        }
        if action.context_menu {
            proof {
                crate::dom::lemma_attr_search(el.attrs@, AttrName::Placement);
            }
            el.set_attribute(AttrName::Placement, String::from_str("contextMenu"));
        }
        if let Some(u) = action.image_uri {
            proof {
                crate::dom::lemma_attr_search(el.attrs@, AttrName::ImageUri);
            }
            el.set_attribute(AttrName::ImageUri, u);
        }
        if let Some(h) = action.hint_input_id {
            proof {
                crate::dom::lemma_attr_search(el.attrs@, AttrName::HintInputId);
            }
            el.set_attribute(AttrName::HintInputId, h);
        }
        if let Some(b) = action.hint_button_style {
            proof {
                crate::dom::lemma_attr_search(el.attrs@, AttrName::HintButtonStyle);
            }
            el.set_attribute(AttrName::HintButtonStyle, b.to_string());
        }
        if let Some(tt) = action.hint_tooltip {
            proof {
                crate::dom::lemma_attr_search(el.attrs@, AttrName::HintTooltip);
            }
            el.set_attribute(AttrName::HintTooltip, tt);
        }
        let ghost elg = el;
        let ghost pre = *self;
        self.push_actions_child(el);
        proof {
            lemma_wf_after_actions_push(pre, *self, elg);
        }
        Ok(())
    }
}

} // verus!

//! The tag builders and the elements they convert to.

use toast_builder::dom::Tag;
use toast_builder::error::Error;
use toast_builder::error::XmlErr;
use toast_builder::tags::action::ActivationType;
use toast_builder::tags::audio::Audio;
use toast_builder::tags::audio::Notification;
use toast_builder::tags::image::Crop;
use toast_builder::tags::image::Image;
use toast_builder::tags::image::Placement;
use toast_builder::tags::input::Input;
use toast_builder::tags::input::Selection;
use toast_builder::tags::progress::Progress;
use toast_builder::tags::progress::Value;
use toast_builder::tags::text::Text;
use toast_builder::tags::toast::Scenarios;
use toast_builder::utils::into_raw::ToXML;

#[test]
fn text_id_zero_rejected() {
    let r = Text::new("anything").id(0).into_element();
    match r {
        Err(Error::XmlErr(XmlErr::InvatedArg(m))) => {
            assert_eq!(m, "id 0 is reserved for the title");
        }
        other => panic!("expected the reserved-id error, got {:?}", other.map(|e| e.tag)),
    }
}

#[test]
fn text_id_zero_rejected_with_other_fields() {
    let r = Text::new("x")
        .bottem_text()
        .hint_call_scenario_center_align()
        .id(0)
        .into_element();
    assert!(matches!(r, Err(Error::XmlErr(XmlErr::InvatedArg(_)))));
}

#[test]
fn text_element_serialization() {
    let el = Text::new("hi").id(3).bottem_text().into_element().unwrap();
    assert_eq!(el.tag, Tag::Text);
    assert_eq!(el.to_xml(), "<text id=\"3\" placement=\"attribution\">hi</text>");
}

#[test]
fn text_element_center_align() {
    let el = Text::new("call").hint_call_scenario_center_align().into_element().unwrap();
    assert_eq!(el.to_xml(), "<text hint-callScenarioCenterAlign=\"true\">call</text>");
}

#[test]
fn image_hint_crop_empty_without_crop() {
    let el = Image::new("https://example.test/a.png").into_element().unwrap();
    assert_eq!(
        el.to_xml(),
        "<image addImageQuery=\"false\" alt=\"\" src=\"https://example.test/a.png\" \
         placement=\"appLogoOverride\" hint-crop=\"\"></image>"
    );
}

#[test]
fn image_hint_crop_circle() {
    let el = Image::new("u").set_hint_crop(Crop::Circle).into_element().unwrap();
    assert_eq!(
        el.to_xml(),
        "<image addImageQuery=\"false\" alt=\"\" src=\"u\" placement=\"appLogoOverride\" \
         hint-crop=\"circle\"></image>"
    );
}

#[test]
fn image_with_id_alt_and_hero() {
    let el = Image::new("pic")
        .set_id(4)
        .set_alt("a mountain".to_string())
        .set_placement(Placement::Hero)
        .into_element()
        .unwrap();
    assert_eq!(
        el.to_xml(),
        "<image addImageQuery=\"false\" alt=\"a mountain\" id=\"4\" src=\"pic\" \
         placement=\"hero\" hint-crop=\"\"></image>"
    );
}

#[test]
fn progress_floating_value() {
    let rendered = format!("{}", 0.42f32);
    let el = Progress::new("Downloading...", Value::Floating(rendered)).into_element().unwrap();
    assert_eq!(
        el.to_xml(),
        "<progress status=\"Downloading...\" value=\"0.42\"></progress>"
    );
}

#[test]
fn progress_indeterminate_value() {
    let el = Progress::new("Working", Value::Indeterminate)
        .title("Update")
        .value_string_override("almost there")
        .into_element()
        .unwrap();
    assert_eq!(
        el.to_xml(),
        "<progress title=\"Update\" status=\"Working\" value=\"indeterminate\" \
         valueStringOverride=\"almost there\"></progress>"
    );
}

#[test]
fn audio_plain() {
    let el = Audio::new(Notification::Default).into_element().unwrap();
    assert_eq!(el.to_xml(), "<audio src=\"ms-winsoundevent:Notification.Default\"></audio>");
}

#[test]
fn audio_looping_and_silent() {
    let el = Audio::new(Notification::LoopingAlarm2).loop_().silent().into_element().unwrap();
    assert_eq!(
        el.to_xml(),
        "<audio src=\"ms-winsoundevent:Notification.Looping.Alarm2\" loop=\"true\" \
         silent=\"true\"></audio>"
    );
}

#[test]
fn input_text_with_placeholder() {
    let el = Input::new_text("textbox", Some("reply")).into_element().unwrap();
    assert_eq!(
        el.to_xml(),
        "<input id=\"textbox\" type=\"text\" placeHolderContent=\"reply\"></input>"
    );
}

#[test]
fn input_selection_with_children() {
    let sels = vec![Selection::new("s1", "first"), Selection::new("s2", "second")];
    let el = Input::new_selection("pick", sels, Some("s2")).title("Choose").into_element().unwrap();
    assert_eq!(
        el.to_xml(),
        "<input id=\"pick\" type=\"selection\" title=\"Choose\" defaultInput=\"s2\">\
         <selection id=\"s1\" content=\"first\"></selection>\
         <selection id=\"s2\" content=\"second\"></selection></input>"
    );
}

#[test]
fn activation_type_default_is_foreground() {
    assert!(matches!(ActivationType::default(), ActivationType::Forground));
    assert!(matches!(
        toast_builder::tags::header::ActivationType::default(),
        toast_builder::tags::header::ActivationType::Forground
    ));
}

#[test]
fn scenario_strings() {
    assert_eq!(Scenarios::Reminder.to_string(), "reminder");
    assert_eq!(Scenarios::Alarm.to_string(), "alarm");
    assert_eq!(Scenarios::IncomingCall.to_string(), "incomingCall");
    assert_eq!(Scenarios::Urgent.to_string(), "urgent");
}

#[test]
fn error_messages() {
    assert_eq!(
        Error::AlreadyHasAudio.message(),
        "the toast already has an audio element"
    );
    assert_eq!(XmlErr::NotFound.message(), "no node matches the lookup");
    assert_eq!(XmlErr::Ambiguous.message(), "more than one node matches the lookup");
}

//! The toast controller: structural operations, upserts, lookups, and the
//! serialized documents they produce.

use toast_builder::dom::Tag;
use toast_builder::error::Error;
use toast_builder::error::XmlErr;
use toast_builder::tags::action::Action;
use toast_builder::tags::action::ActivationType;
use toast_builder::tags::audio::Audio;
use toast_builder::tags::audio::Notification;
use toast_builder::tags::commands::CallCommands;
use toast_builder::tags::commands::Senario;
use toast_builder::tags::header::Header;
use toast_builder::tags::image::Crop;
use toast_builder::tags::image::Image;
use toast_builder::tags::image::Placement;
use toast_builder::tags::input::Input;
use toast_builder::tags::progress::Progress;
use toast_builder::tags::progress::Value;
use toast_builder::tags::sub_group::Child;
use toast_builder::tags::text::Text;
use toast_builder::tags::toast::Duration;
use toast_builder::tags::toast::Scenarios;
use toast_builder::Toast;

fn xml(t: &Toast) -> String {
    t.into_raw().unwrap()
}

const FRESH: &str = "<toast><visual id=\"visual\"><binding template=\"ToastGeneric\">\
                     <text id=\"0\"></text></binding></visual><actions></actions></toast>";

#[test]
fn fresh_toast_skeleton() {
    let t = Toast::new().unwrap();
    assert_eq!(xml(&t), FRESH);
}

#[test]
fn title_overwrites_reserved_text() {
    let mut t = Toast::new().unwrap();
    t.title("First").unwrap();
    t.title("Second").unwrap();
    assert!(xml(&t).contains("<text id=\"0\">Second</text>"));
    assert!(!xml(&t).contains("First"));
}

#[test]
fn text_rejects_reserved_id() {
    let mut t = Toast::new().unwrap();
    let r = t.text("body", 0);
    assert!(matches!(r, Err(Error::XmlErr(XmlErr::InvatedArg(_)))));
    assert_eq!(xml(&t), FRESH);
    let r2 = t.bottom_text("body", 0);
    assert!(matches!(r2, Err(Error::XmlErr(XmlErr::InvatedArg(_)))));
}

#[test]
fn text_upsert_same_id_keeps_one_element() {
    let mut t = Toast::new().unwrap();
    t.text("first", 1).unwrap();
    t.text("second", 1).unwrap();
    let s = xml(&t);
    assert_eq!(s.matches("id=\"1\"").count(), 1);
    assert!(s.contains("<text id=\"1\">second</text>"));
    assert!(!s.contains("first"));
}

#[test]
fn bottom_text_upsert_same_id() {
    let mut t = Toast::new().unwrap();
    t.bottom_text("old note", 9).unwrap();
    t.bottom_text("new note", 9).unwrap();
    let s = xml(&t);
    assert_eq!(s.matches("id=\"9\"").count(), 1);
    assert!(s.contains("<text id=\"9\" placement=\"attribution\">new note</text>"));
}

#[test]
fn text_with_negative_id() {
    let mut t = Toast::new().unwrap();
    t.text("neg", -5).unwrap();
    assert!(xml(&t).contains("<text id=\"-5\">neg</text>"));
}

#[test]
fn text_with_extreme_ids() {
    let mut t = Toast::new().unwrap();
    t.text("low", i32::MIN).unwrap();
    t.text("high", i32::MAX).unwrap();
    let s = xml(&t);
    assert!(s.contains("<text id=\"-2147483648\">low</text>"));
    assert!(s.contains("<text id=\"2147483647\">high</text>"));
}

#[test]
fn text_ambiguous_id_rejected() {
    let mut t = Toast::new().unwrap();
    t.add_text(Text::new("a").id(2)).unwrap();
    t.add_text(Text::new("b").id(2)).unwrap();
    let before = xml(&t);
    let r = t.text("c", 2);
    assert!(matches!(r, Err(Error::XmlErr(XmlErr::Ambiguous))));
    assert_eq!(xml(&t), before);
}

#[test]
fn add_sub_group_twice_one_group_two_subgroups() {
    let mut t = Toast::new().unwrap();
    t.add_sub_group(vec![Child::Text(Text::new("left")), Child::Image(Image::new("i1"))])
        .unwrap();
    t.add_sub_group(vec![Child::Text(Text::new("right"))]).unwrap();
    let s = xml(&t);
    assert_eq!(s.matches("<group>").count(), 1);
    assert_eq!(s.matches("</group>").count(), 1);
    assert_eq!(s.matches("<subgroup>").count(), 2);
    let first = s.find("<subgroup><text>left</text>").unwrap();
    let second = s.find("<subgroup><text>right</text></subgroup>").unwrap();
    assert!(first < second);
}

#[test]
fn add_sub_group_rejects_reserved_id() {
    let mut t = Toast::new().unwrap();
    let r = t.add_sub_group(vec![Child::Text(Text::new("x").id(0))]);
    assert!(matches!(r, Err(Error::XmlErr(XmlErr::InvatedArg(_)))));
    assert_eq!(xml(&t), FRESH);
}

#[test]
fn audio_at_most_once() {
    let mut t = Toast::new().unwrap();
    t.add_audio(Audio::new(Notification::Mail)).unwrap();
    let r = t.add_audio(Audio::new(Notification::SMS));
    assert!(matches!(r, Err(Error::AlreadyHasAudio)));
    let s = xml(&t);
    assert_eq!(s.matches("<audio").count(), 1);
    assert!(s.contains("<audio src=\"ms-winsoundevent:Notification.Mail\"></audio>"));
}

#[test]
fn lookup_with_zero_matches_fails() {
    let t = Toast::new().unwrap();
    let missing = t.doc.select_single_node(&[Tag::Toast, Tag::Visual, Tag::Binding, Tag::Group]);
    assert!(matches!(missing, Err(XmlErr::NotFound)));
    let by_id = t.doc.get_element_by_id("42");
    assert!(matches!(by_id, Err(XmlErr::NotFound)));
    let wrong_root = t.doc.select_single_node(&[Tag::Visual]);
    assert!(matches!(wrong_root, Err(XmlErr::NotFound)));
}

#[test]
fn lookup_with_several_matches_fails() {
    let mut t = Toast::new().unwrap();
    t.add_image(Image::new("a").set_id(7)).unwrap();
    t.add_image(Image::new("b").set_id(7)).unwrap();
    assert!(matches!(t.doc.get_element_by_id("7"), Err(XmlErr::Ambiguous)));
}

#[test]
fn lookup_finds_unique_nodes() {
    let t = Toast::new().unwrap();
    let binding = t.doc.select_single_node(&[Tag::Toast, Tag::Visual, Tag::Binding]).unwrap();
    assert_eq!(binding.tag, Tag::Binding);
    let root = t.doc.select_single_node(&[Tag::Toast]).unwrap();
    assert_eq!(root.tag, Tag::Toast);
    let title = t.doc.get_element_by_id("0").unwrap();
    assert_eq!(title.tag, Tag::Text);
    let visual = t.doc.get_element_by_id("visual").unwrap();
    assert_eq!(visual.tag, Tag::Visual);
}

#[test]
fn root_attributes() {
    let mut t = Toast::new().unwrap();
    t.duration(Duration::Short).unwrap();
    t.duration(Duration::Long).unwrap();
    t.launch("context=42").unwrap();
    t.scenario(Scenarios::Urgent).unwrap();
    t.styled_button(true).unwrap();
    let s = xml(&t);
    assert!(s.starts_with(
        "<toast duration=\"long\" launch=\"context=42\" scenario=\"urgent\" \
         useButtonStyle=\"true\">"
    ));
    assert_eq!(s.matches("duration=").count(), 1);
}

#[test]
fn binding_and_visual_attributes() {
    let mut t = Toast::new().unwrap();
    t.binding_add_image_query().unwrap();
    t.binding_base_uri("https://example.test/").unwrap();
    t.binding_fallback("ToastImageAndText01").unwrap();
    t.visual_add_image_query().unwrap();
    t.visual_base_uri("https://example.test/v/").unwrap();
    let s = xml(&t);
    assert!(s.contains(
        "<visual id=\"visual\" addImageQuery=\"true\" baseUri=\"https://example.test/v/\">"
    ));
    assert!(s.contains(
        "<binding template=\"ToastGeneric\" addImageQuery=\"true\" \
         baseUri=\"https://example.test/\" fallback=\"ToastImageAndText01\">"
    ));
}

#[test]
fn header_and_commands() {
    let mut t = Toast::new().unwrap();
    t.add_header(
        Header::new("h1", "Project", "action=open")
            .activation_type(toast_builder::tags::header::ActivationType::Protocol),
    )
    .unwrap();
    t.add_command(Senario::IncomingCall(CallCommands::Decline), "callId=9".to_string()).unwrap();
    let s = xml(&t);
    assert!(s.contains(
        "<header id=\"h1\" title=\"Project\" arguments=\"action=open\" \
         activationType=\"protocol\"></header>"
    ));
    assert!(s.contains(
        "<commands scenario=\"incomingCall\"><command id=\"decline\" \
         arguments=\"callId=9\"></command></commands>"
    ));
}

#[test]
fn progress_in_document() {
    let mut t = Toast::new().unwrap();
    t.add_progress(Progress::new("Sending", Value::Floating(format!("{}", 0.5f32)))).unwrap();
    assert!(xml(&t).contains("<progress status=\"Sending\" value=\"0.5\"></progress>"));
}

#[test]
fn app_id_stored() {
    let mut t = Toast::new().unwrap();
    assert_eq!(t.app_id, toast_builder::toast::POWERSHELL_APP_ID);
    t.app_id("com.example.app").unwrap();
    assert_eq!(t.app_id, "com.example.app");
}

#[test]
fn round_trip_example_document() {
    let mut t = Toast::new().unwrap();
    t.title("Hello, world!").unwrap();
    t.text("Jill Bender", 1).unwrap();
    t.add_image(
        Image::new("https://unsplash.it/64?image=1027")
            .set_placement(Placement::AppLogoOverride)
            .set_hint_crop(Crop::Circle),
    )
    .unwrap();
    t.add_input(Input::new_text("textbox", Some("reply"))).unwrap();
    t.add_action(
        Action::new("Send".to_string(), "action=reply&amp;threadId=92187".to_string())
            .image_uri("".to_string())
            .hint_input_id("textbox".to_string())
            .activation_type(ActivationType::Background),
    )
    .unwrap();
    assert_eq!(
        xml(&t),
        "<toast><visual id=\"visual\"><binding template=\"ToastGeneric\">\
         <text id=\"0\">Hello, world!</text>\
         <text id=\"1\">Jill Bender</text>\
         <image addImageQuery=\"false\" alt=\"\" src=\"https://unsplash.it/64?image=1027\" \
         placement=\"appLogoOverride\" hint-crop=\"circle\"></image>\
         </binding></visual><actions>\
         <input id=\"textbox\" type=\"text\" placeHolderContent=\"reply\"></input>\
         <action content=\"Send\" arguments=\"action=reply&amp;threadId=92187\" \
         activationType=\"background\" imageUri=\"\" hint-inputId=\"textbox\"></action>\
         </actions></toast>"
    );
}

#[test]
fn action_full_attribute_order() {
    let mut t = Toast::new().unwrap();
    t.add_action(
        Action::new("Go".to_string(), "a=1".to_string())
            .activation_type(ActivationType::Protocol)
            .context_menu()
            .image_uri("icon.png".to_string())
            .hint_input_id("box".to_string())
            .hint_button_style(toast_builder::tags::action::ButtonStyle::Critical)
            .hint_tooltip("press me".to_string()),
    )
    .unwrap();
    assert!(xml(&t).contains(
        "<action content=\"Go\" arguments=\"a=1\" activationType=\"protocol\" \
         placement=\"contextMenu\" imageUri=\"icon.png\" hint-inputId=\"box\" \
         hint-buttonStyle=\"Critical\" hint-tooltip=\"press me\"></action>"
    ));
}

use std::io::Cursor;

use user_management::error::Error;
use user_management::onboarding::{
    lower_eq, validate_image_field, Date, EorDetailNames, EorDetails,
    IndividualDetailNames, IndividualDetails, MultipartForm, MultipartFormFields,
    FORM_DATA_LENGTH_LIMIT, IMAGE_DIMENSION_LIMIT, IMAGE_SIZE_LIMIT,
};

fn encode(w: u32, h: u32, format: image::ImageOutputFormat) -> Vec<u8> {
    let img = image::DynamicImage::ImageRgb8(image::RgbImage::new(w, h));
    let mut out = Cursor::new(Vec::new());
    img.write_to(&mut out, format).unwrap();
    out.into_inner()
}

fn png(w: u32, h: u32) -> Vec<u8> {
    encode(w, h, image::ImageOutputFormat::Png)
}

fn jpeg(w: u32, h: u32) -> Vec<u8> {
    encode(w, h, image::ImageOutputFormat::Jpeg(80))
}


#[test]
fn limits() {
    assert_eq!(FORM_DATA_LENGTH_LIMIT, 9 * 1024 * 1024);
    assert_eq!(IMAGE_SIZE_LIMIT, 8 * 1024 * 1024);
    assert_eq!(IMAGE_DIMENSION_LIMIT, 400);
}

#[test]
fn small_png_is_accepted() {
    let data = png(10, 20);
    assert!(validate_image_field(Some("me.png"), Some("image/png"), &data).is_ok());
    assert!(validate_image_field(Some("ME.PNG"), Some("Image/PNG"), &data).is_ok());
}

#[test]
fn small_jpeg_is_accepted() {
    let data = jpeg(30, 30);
    assert!(validate_image_field(Some("me.jpg"), Some("image/jpeg"), &data).is_ok());
    assert!(validate_image_field(Some("me.jpeg"), Some("image/jpeg"), &data).is_ok());
}

#[test]
fn large_dimensions_are_refused() {
    let data = png(401, 10);
    match validate_image_field(Some("big.png"), Some("image/png"), &data) {
        Err(Error::PayloadTooLarge(m)) => {
            assert_eq!(m, "Image dimensions cannot exceed 400px x 400px")
        }
        other => panic!("unexpected {:?}", other),
    }
    let edge = png(400, 400);
    assert!(validate_image_field(Some("edge.png"), Some("image/png"), &edge).is_ok());
}

#[test]
fn oversized_file_is_refused() {
    let data = vec![0u8; IMAGE_SIZE_LIMIT + 1];
    match validate_image_field(Some("huge.png"), Some("image/png"), &data) {
        Err(Error::PayloadTooLarge(m)) => assert_eq!(m, "File size cannot exceed 8MiB"),
        other => panic!("unexpected {:?}", other),
    }
}

#[test]
fn mismatched_or_missing_parts_are_refused() {
    let data = png(10, 10);
    assert!(matches!(
        validate_image_field(None, Some("image/png"), &data),
        Err(Error::BadRequest)
    ));
    assert!(matches!(
        validate_image_field(Some("me.png"), None, &data),
        Err(Error::BadRequest)
    ));
    assert!(matches!(
        validate_image_field(Some("me.gif"), Some("image/png"), &data),
        Err(Error::UnsupportedImageFormat)
    ));
    assert!(matches!(
        validate_image_field(Some("noextension"), Some("image/png"), &data),
        Err(Error::UnsupportedImageFormat)
    ));
    assert!(matches!(
        validate_image_field(Some("me.jpg"), Some("image/png"), &data),
        Err(Error::UnsupportedImageFormat)
    ));
    // Declared JPEG, but the content is PNG.
    assert!(matches!(
        validate_image_field(Some("me.jpg"), Some("image/jpeg"), &data),
        Err(Error::UnsupportedImageFormat)
    ));
    assert!(matches!(
        validate_image_field(Some("me.png"), Some("text/plain"), &data),
        Err(Error::UnsupportedImageFormat)
    ));
    assert!(matches!(
        validate_image_field(Some("me.png"), Some("image/png"), b"not an image"),
        Err(Error::UnsupportedImageFormat)
    ));
    assert!(matches!(
        validate_image_field(Some("me.png"), Some("image/png; q=1"), &data),
        Err(Error::UnsupportedImageFormat)
    ));
    assert!(matches!(
        validate_image_field(Some("me.png"), Some("not a media type"), &data),
        Err(Error::BadRequest)
    ));
}

#[test]
fn ascii_lower_comparison() {
    assert!(lower_eq("PnG", "png"));
    assert!(!lower_eq("pngs", "png"));
    assert!(!lower_eq("pnh", "png"));
}

#[test]
fn field_names() {
    assert_eq!(
        MultipartForm::<IndividualDetailNames>::field(Some("first_name")).unwrap(),
        IndividualDetailNames::FirstName
    );
    assert_eq!(
        MultipartForm::<IndividualDetailNames>::field(Some("profile_picture")).unwrap(),
        IndividualDetailNames::ProfilePicture
    );
    assert!(matches!(
        MultipartForm::<IndividualDetailNames>::field(Some("nickname")),
        Err(Error::BadRequest)
    ));
    assert!(matches!(MultipartForm::<EorDetailNames>::field(None), Err(Error::BadRequest)));
    assert_eq!(IndividualDetailNames::count(), 12);
    assert_eq!(EorDetailNames::count(), 8);
    assert!(!IndividualDetailNames::TaxId.is_required());
    assert!(IndividualDetailNames::Dob.is_required());
    assert!(IndividualDetailNames::ProfilePicture.is_image());
    assert!(!IndividualDetailNames::ProfilePicture.is_required());
}

fn fill_individual(form: &mut MultipartForm<IndividualDetailNames>, skip: Option<&str>) {
    let values = [
        ("first_name", "Ada"),
        ("last_name", "Lovelace"),
        ("dob", "1815-12-10"),
        ("dial_code", "+44"),
        ("phone_number", "123456"),
        ("country", "GB"),
        ("address", "12 Street"),
        ("city", "London"),
        ("postal_code", "W1"),
        ("time_zone", "Europe/London"),
    ];
    for (name, value) in values {
        if Some(name) == skip {
            continue;
        }
        let f = MultipartForm::<IndividualDetailNames>::field(Some(name)).unwrap();
        form.add_text(f, value.to_string()).unwrap();
    }
}

#[test]
fn complete_individual_form() {
    let mut form = MultipartForm::<IndividualDetailNames>::new();
    fill_individual(&mut form, None);
    assert!(form.finish().is_ok());
    let d = IndividualDetails::from_form(&form).unwrap();
    assert_eq!(d.first_name, "Ada");
    assert_eq!(d.dob, Date { year: 1815, month: 12, day: 10 });
    assert_eq!(d.time_zone, "Europe/London");
    assert_eq!(d.tax_id, None);
    assert_eq!(d.profile_picture, None);
}

#[test]
fn optional_fields_are_kept() {
    let mut form = MultipartForm::<IndividualDetailNames>::new();
    fill_individual(&mut form, None);
    form.add_text(IndividualDetailNames::TaxId, "T-1".to_string()).unwrap();
    form.add_image(IndividualDetailNames::ProfilePicture, vec![1, 2, 3]).unwrap();
    let d = IndividualDetails::from_form(&form).unwrap();
    assert_eq!(d.tax_id, Some("T-1".to_string()));
    assert_eq!(d.profile_picture, Some(vec![1, 2, 3]));
}

#[test]
fn missing_required_field_is_bad_request() {
    let mut form = MultipartForm::<IndividualDetailNames>::new();
    fill_individual(&mut form, Some("city"));
    assert!(matches!(form.finish(), Err(Error::BadRequest)));
    assert!(matches!(IndividualDetails::from_form(&form), Err(Error::BadRequest)));
}

#[test]
fn repeated_field_is_bad_request() {
    let mut form = MultipartForm::<IndividualDetailNames>::new();
    form.add_text(IndividualDetailNames::City, "A".to_string()).unwrap();
    assert!(matches!(
        form.add_text(IndividualDetailNames::City, "B".to_string()),
        Err(Error::BadRequest)
    ));
    assert_eq!(form.text_at(7), Some("A".to_string()));
}

#[test]
fn bad_date_is_bad_request() {
    let mut form = MultipartForm::<IndividualDetailNames>::new();
    fill_individual(&mut form, Some("dob"));
    form.add_text(IndividualDetailNames::Dob, "1815-13-10".to_string()).unwrap();
    assert!(matches!(IndividualDetails::from_form(&form), Err(Error::BadRequest)));
}

#[test]
fn eor_form() {
    let mut form = MultipartForm::<EorDetailNames>::new();
    for (name, value) in [
        ("first_name", "Grace"),
        ("last_name", "Hopper"),
        ("dob", "1906-12-09"),
        ("dial_code", "+1"),
        ("phone_number", "555"),
        ("country", "US"),
        ("time_zone", "America/New_York"),
    ] {
        let f = MultipartForm::<EorDetailNames>::field(Some(name)).unwrap();
        form.add_text(f, value.to_string()).unwrap();
    }
    let d = EorDetails::from_form(&form).unwrap();
    assert_eq!(d.last_name, "Hopper");
    assert_eq!(d.dob, Date { year: 1906, month: 12, day: 9 });
    assert_eq!(d.country, "US");
    assert_eq!(d.profile_picture, None);
}

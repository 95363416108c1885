//! Onboarding forms: the fields each form accepts, how a multipart
//! submission is collected and checked, and the checks on uploaded images.

use vstd::prelude::*;

use crate::credentials::text_eq;
use crate::error::Error;

verus! {

/// The fields of a multipart onboarding form.
pub trait MultipartFormFields: Sized {
    /// How many fields the form has.
    spec fn spec_count() -> nat;

    /// The position of a field among the form's fields.
    spec fn spec_index(&self) -> nat;

    /// Whether the field at a position must be present.
    spec fn spec_required(i: nat) -> bool;

    /// Whether the field at a position is an uploaded image.
    spec fn spec_image(i: nat) -> bool;

    /// The field with a given (snake-case) name.
    spec fn spec_from_name(s: Seq<char>) -> Option<Self>;

    /// How many fields the form has.
    fn count() -> (r: usize)
        ensures
            r == Self::spec_count();

    /// The position of the field among the form's fields.
    fn index(&self) -> (r: usize)
        ensures
            r == self.spec_index(),
            r < Self::spec_count();

    /// Whether the field must be present.
    fn is_required(&self) -> (r: bool)
        ensures
            r == Self::spec_required(self.spec_index());

    /// Whether the field is an uploaded image.
    fn is_image(&self) -> (r: bool)
        ensures
            r == Self::spec_image(self.spec_index());

    /// Whether the field at position `i` must be present.
    fn required_at(i: usize) -> (r: bool)
        requires
            i < Self::spec_count(),
        ensures
            r == Self::spec_required(i as nat);

    /// The field with a given name.
    fn from_name(s: &str) -> (r: Option<Self>)
        ensures
            r == Self::spec_from_name(s@);
}

/// Fields of the individual onboarding form.
#[derive(Debug, Clone, Copy, PartialEq, Eq, Structural)]
pub enum IndividualDetailNames {
    FirstName,
    LastName,
    Dob,
    DialCode,
    PhoneNumber,
    Country,
    Address,
    City,
    PostalCode,
    TaxId,
    TimeZone,
    ProfilePicture,
}

/// Position of an individual form field.
pub open spec fn individual_index(f: IndividualDetailNames) -> nat {
    match f {
        IndividualDetailNames::FirstName => 0,
        IndividualDetailNames::LastName => 1,
        IndividualDetailNames::Dob => 2,
        IndividualDetailNames::DialCode => 3,
        IndividualDetailNames::PhoneNumber => 4,
        IndividualDetailNames::Country => 5,
        IndividualDetailNames::Address => 6,
        IndividualDetailNames::City => 7,
        IndividualDetailNames::PostalCode => 8,
        IndividualDetailNames::TaxId => 9,
        IndividualDetailNames::TimeZone => 10,
        IndividualDetailNames::ProfilePicture => 11,
    }
}

/// The individual form field with a given name.
pub open spec fn individual_from_name(s: Seq<char>) -> Option<IndividualDetailNames> {
    if s == "first_name"@ {
        Some(IndividualDetailNames::FirstName)
    } else if s == "last_name"@ {
        Some(IndividualDetailNames::LastName)
    } else if s == "dob"@ {
        Some(IndividualDetailNames::Dob)
    } else if s == "dial_code"@ {
        Some(IndividualDetailNames::DialCode)
    } else if s == "phone_number"@ {
        Some(IndividualDetailNames::PhoneNumber)
    } else if s == "country"@ {
        Some(IndividualDetailNames::Country)
    } else if s == "address"@ {
        Some(IndividualDetailNames::Address)
    } else if s == "city"@ {
        Some(IndividualDetailNames::City)
    } else if s == "postal_code"@ {
        Some(IndividualDetailNames::PostalCode)
    } else if s == "tax_id"@ {
        Some(IndividualDetailNames::TaxId)
    } else if s == "time_zone"@ {
        Some(IndividualDetailNames::TimeZone)
    } else if s == "profile_picture"@ {
        Some(IndividualDetailNames::ProfilePicture)
    } else {
        None
    }
}

impl MultipartFormFields for IndividualDetailNames {
    open spec fn spec_count() -> nat {
        12
    }

    open spec fn spec_index(&self) -> nat {
        individual_index(*self)
    }

    open spec fn spec_required(i: nat) -> bool {
        i != 9 && i != 11
    }

    open spec fn spec_image(i: nat) -> bool {
        i == 11
    }

    open spec fn spec_from_name(s: Seq<char>) -> Option<Self> {
        individual_from_name(s)
    }

    fn count() -> (r: usize) {
        12
    }

    fn index(&self) -> (r: usize) {
        match self {
            IndividualDetailNames::FirstName => 0,
            IndividualDetailNames::LastName => 1,
            IndividualDetailNames::Dob => 2,
            IndividualDetailNames::DialCode => 3,
            IndividualDetailNames::PhoneNumber => 4,
            IndividualDetailNames::Country => 5,
            IndividualDetailNames::Address => 6,
            IndividualDetailNames::City => 7,
            IndividualDetailNames::PostalCode => 8,
            IndividualDetailNames::TaxId => 9,
            IndividualDetailNames::TimeZone => 10,
            IndividualDetailNames::ProfilePicture => 11,
        }
    }

    fn is_required(&self) -> (r: bool) {
        !matches!(self, IndividualDetailNames::TaxId | IndividualDetailNames::ProfilePicture)
    }

    fn is_image(&self) -> (r: bool) {
        matches!(self, IndividualDetailNames::ProfilePicture)
    }

    fn required_at(i: usize) -> (r: bool) {
        i != 9 && i != 11
    }

    fn from_name(s: &str) -> (r: Option<Self>) {
        if text_eq(s, "first_name") {
            Some(IndividualDetailNames::FirstName)
        } else if text_eq(s, "last_name") {
            Some(IndividualDetailNames::LastName)
        } else if text_eq(s, "dob") {
            Some(IndividualDetailNames::Dob)
        } else if text_eq(s, "dial_code") {
            Some(IndividualDetailNames::DialCode)
        } else if text_eq(s, "phone_number") {
            Some(IndividualDetailNames::PhoneNumber)
        } else if text_eq(s, "country") {
            Some(IndividualDetailNames::Country)
        } else if text_eq(s, "address") {
            Some(IndividualDetailNames::Address)
        } else if text_eq(s, "city") {
            Some(IndividualDetailNames::City)
        } else if text_eq(s, "postal_code") {
            Some(IndividualDetailNames::PostalCode)
        } else if text_eq(s, "tax_id") {
            Some(IndividualDetailNames::TaxId)
        } else if text_eq(s, "time_zone") {
            Some(IndividualDetailNames::TimeZone)
        } else if text_eq(s, "profile_picture") {
            Some(IndividualDetailNames::ProfilePicture)
        } else {
            None
        }
    }
}

/// Fields of the EOR administrator onboarding form.
#[derive(Debug, Clone, Copy, PartialEq, Eq, Structural)]
pub enum EorDetailNames {
    FirstName,
    LastName,
    Dob,
    DialCode,
    PhoneNumber,
    Country,
    TimeZone,
    ProfilePicture,
}

/// Position of an administrator form field.
pub open spec fn eor_index(f: EorDetailNames) -> nat {
    match f {
        EorDetailNames::FirstName => 0,
        EorDetailNames::LastName => 1,
        EorDetailNames::Dob => 2,
        EorDetailNames::DialCode => 3,
        EorDetailNames::PhoneNumber => 4,
        EorDetailNames::Country => 5,
        EorDetailNames::TimeZone => 6,
        EorDetailNames::ProfilePicture => 7,
    }
}

/// The administrator form field with a given name.
pub open spec fn eor_from_name(s: Seq<char>) -> Option<EorDetailNames> {
    if s == "first_name"@ {
        Some(EorDetailNames::FirstName)
    } else if s == "last_name"@ {
        Some(EorDetailNames::LastName)
    } else if s == "dob"@ {
        Some(EorDetailNames::Dob)
    } else if s == "dial_code"@ {
        Some(EorDetailNames::DialCode)
    } else if s == "phone_number"@ {
        Some(EorDetailNames::PhoneNumber)
    } else if s == "country"@ {
        Some(EorDetailNames::Country)
    } else if s == "time_zone"@ {
        Some(EorDetailNames::TimeZone)
    } else if s == "profile_picture"@ {
        Some(EorDetailNames::ProfilePicture)
    } else {
        None
    }
}

impl MultipartFormFields for EorDetailNames {
    open spec fn spec_count() -> nat {
        8
    }

    open spec fn spec_index(&self) -> nat {
        eor_index(*self)
    }

    open spec fn spec_required(i: nat) -> bool {
        i != 7
    }

    open spec fn spec_image(i: nat) -> bool {
        i == 7
    }

    open spec fn spec_from_name(s: Seq<char>) -> Option<Self> {
        eor_from_name(s)
    }

    fn count() -> (r: usize) {
        8
    }

    fn index(&self) -> (r: usize) {
        match self {
            EorDetailNames::FirstName => 0,
            EorDetailNames::LastName => 1,
            EorDetailNames::Dob => 2,
            EorDetailNames::DialCode => 3,
            EorDetailNames::PhoneNumber => 4,
            EorDetailNames::Country => 5,
            EorDetailNames::TimeZone => 6,
            EorDetailNames::ProfilePicture => 7,
        }
    }

    fn is_required(&self) -> (r: bool) {
        !matches!(self, EorDetailNames::ProfilePicture)
    }

    fn is_image(&self) -> (r: bool) {
        matches!(self, EorDetailNames::ProfilePicture)
    }

    fn required_at(i: usize) -> (r: bool) {
        i != 7
    }

    fn from_name(s: &str) -> (r: Option<Self>) {
        if text_eq(s, "first_name") {
            Some(EorDetailNames::FirstName)
        } else if text_eq(s, "last_name") {
            Some(EorDetailNames::LastName)
        } else if text_eq(s, "dob") {
            Some(EorDetailNames::Dob)
        } else if text_eq(s, "dial_code") {
            Some(EorDetailNames::DialCode)
        } else if text_eq(s, "phone_number") {
            Some(EorDetailNames::PhoneNumber)
        } else if text_eq(s, "country") {
            Some(EorDetailNames::Country)
        } else if text_eq(s, "time_zone") {
            Some(EorDetailNames::TimeZone)
        } else if text_eq(s, "profile_picture") {
            Some(EorDetailNames::ProfilePicture)
        } else {
            None
        }
    }
}

/// The snake-case name under which each individual form field is sent.
pub open spec fn individual_field_name(f: IndividualDetailNames) -> Seq<char> {
    match f {
        IndividualDetailNames::FirstName => "first_name"@,
        IndividualDetailNames::LastName => "last_name"@,
        IndividualDetailNames::Dob => "dob"@,
        IndividualDetailNames::DialCode => "dial_code"@,
        IndividualDetailNames::PhoneNumber => "phone_number"@,
        IndividualDetailNames::Country => "country"@,
        IndividualDetailNames::Address => "address"@,
        IndividualDetailNames::City => "city"@,
        IndividualDetailNames::PostalCode => "postal_code"@,
        IndividualDetailNames::TaxId => "tax_id"@,
        IndividualDetailNames::TimeZone => "time_zone"@,
        IndividualDetailNames::ProfilePicture => "profile_picture"@,
    }
}

/// The snake-case name under which each administrator form field is sent.
pub open spec fn eor_field_name(f: EorDetailNames) -> Seq<char> {
    match f {
        EorDetailNames::FirstName => "first_name"@,
        EorDetailNames::LastName => "last_name"@,
        EorDetailNames::Dob => "dob"@,
        EorDetailNames::DialCode => "dial_code"@,
        EorDetailNames::PhoneNumber => "phone_number"@,
        EorDetailNames::Country => "country"@,
        EorDetailNames::TimeZone => "time_zone"@,
        EorDetailNames::ProfilePicture => "profile_picture"@,
    }
}

proof fn lemma_field_names_revealed()
    ensures
        "first_name"@.len() == 10,
        "last_name"@.len() == 9,
        "dob"@.len() == 3,
        "dial_code"@.len() == 9,
        "phone_number"@.len() == 12,
        "country"@.len() == 7,
        "address"@.len() == 7,
        "city"@.len() == 4,
        "postal_code"@.len() == 11,
        "tax_id"@.len() == 6,
        "time_zone"@.len() == 9,
        "profile_picture"@.len() == 15,
        "last_name"@ != "dial_code"@,
        "last_name"@ != "time_zone"@,
        "dial_code"@ != "time_zone"@,
        "country"@ != "address"@,
{
    reveal_strlit("first_name");
    reveal_strlit("last_name");
    reveal_strlit("dob");
    reveal_strlit("dial_code");
    reveal_strlit("phone_number");
    reveal_strlit("country");
    reveal_strlit("address");
    reveal_strlit("city");
    reveal_strlit("postal_code");
    reveal_strlit("tax_id");
    reveal_strlit("time_zone");
    reveal_strlit("profile_picture");
    assert("last_name"@[0] != "dial_code"@[0]);
    assert("last_name"@[0] != "time_zone"@[0]);
    assert("dial_code"@[0] != "time_zone"@[0]);
    assert("country"@[0] != "address"@[0]);
}

/// Every field of the individual form is read back from the name under
/// which it is sent, and different fields are sent under different names.
pub proof fn law_individual_field_names_read_back(f: IndividualDetailNames, g: IndividualDetailNames)
    ensures
        individual_from_name(individual_field_name(f)) == Some(f),
        <IndividualDetailNames as MultipartFormFields>::spec_from_name(individual_field_name(f)) == Some(f),
        f != g ==> individual_field_name(f) != individual_field_name(g),
{
    lemma_field_names_revealed();
}

/// Every field of the administrator form is read back from the name under
/// which it is sent, and different fields are sent under different names.
pub proof fn law_eor_field_names_read_back(f: EorDetailNames, g: EorDetailNames)
    ensures
        eor_from_name(eor_field_name(f)) == Some(f),
        <EorDetailNames as MultipartFormFields>::spec_from_name(eor_field_name(f)) == Some(f),
        f != g ==> eor_field_name(f) != eor_field_name(g),
{
    lemma_field_names_revealed();
}

/// The value of a submitted form field: text, or the bytes of an upload.
#[derive(Debug)]
pub enum FieldValue {
    Text(String),
    Bytes(Vec<u8>),
}

/// The text of a submitted field, if it is a text field.
pub open spec fn text_of(v: Option<FieldValue>) -> Option<Seq<char>> {
    match v {
        Some(FieldValue::Text(t)) => Some(t@),
        _ => None,
    }
}

/// The bytes of a submitted field, if it is an upload.
pub open spec fn bytes_of(v: Option<FieldValue>) -> Option<Seq<u8>> {
    match v {
        Some(FieldValue::Bytes(b)) => Some(b@),
        _ => None,
    }
}

/// The fields of a multipart form submitted so far, one slot per field.
pub struct MultipartForm<T: MultipartFormFields> {
    values: Vec<Option<FieldValue>>,
    fields: core::marker::PhantomData<T>,
}

impl<T: MultipartFormFields> MultipartForm<T> {
    /// One slot per field, and uploads only in image slots.
    #[verifier::type_invariant]
    closed spec fn wf(&self) -> bool {
        &&& self.values@.len() == T::spec_count()
        &&& forall|i: int| 0 <= i < self.values@.len() ==> match #[trigger] self.values@[i] {
            Some(FieldValue::Text(_)) => !T::spec_image(i as nat),
            Some(FieldValue::Bytes(_)) => T::spec_image(i as nat),
            None => true,
        }
    }

    /// The submitted value of the field at position `i`, if any.
    pub closed spec fn value_at(&self, i: nat) -> Option<FieldValue> {
        self.values@[i as int]
    }

    /// Whether every required field was submitted.
    pub open spec fn complete(&self) -> bool {
        forall|i: nat| i < T::spec_count() && T::spec_required(i) ==> (#[trigger] self.value_at(i)) is Some
    }

    /// Text fields hold text and image fields hold uploads.
    proof fn lemma_slots(&self, i: nat)
        requires
            self.wf(),
            i < T::spec_count(),
        ensures
            self.value_at(i) matches Some(FieldValue::Text(_)) ==> !T::spec_image(i),
            self.value_at(i) matches Some(FieldValue::Bytes(_)) ==> T::spec_image(i),
    {
        assert(match self.values@[i as int] {
            Some(FieldValue::Text(_)) => !T::spec_image(i),
            Some(FieldValue::Bytes(_)) => T::spec_image(i),
            None => true,
        });
    }

    /// One empty slot per field.
    fn empty_slots() -> (v: Vec<Option<FieldValue>>)
        ensures
            v@.len() == T::spec_count(),
            forall|j: int| 0 <= j < v@.len() ==> (#[trigger] v@[j]) is None,
    {
        let n = T::count();
        let mut values: Vec<Option<FieldValue>> = Vec::new();
        let mut i: usize = 0;
        while i < n
            invariant
                n == T::spec_count(),
                i <= n,
                values@.len() == i,
                forall|j: int| 0 <= j < i ==> (#[trigger] values@[j]) is None,
            decreases n - i,
        {
            values.push(None);
            i = i + 1;
        }
        values
    }

    /// A form with no field submitted.
    pub fn new() -> (f: Self)
        ensures
            forall|i: nat| i < T::spec_count() ==> (#[trigger] f.value_at(i)) is None,
    {
        MultipartForm { values: Self::empty_slots(), fields: core::marker::PhantomData }
    }

    /// The form field that a submitted part names; a part without a name or
    /// with an unknown name is a bad request.
    pub fn field(name: Option<&str>) -> (r: Result<T, Error>)
        ensures
            match name {
                Some(n) => match T::spec_from_name(n@) {
                    Some(f) => r == Ok::<T, Error>(f),
                    None => r matches Err(e) && e is BadRequest,
                },
                None => r matches Err(e) && e is BadRequest,
            },
    {
        match name {
            Some(n) => match T::from_name(n) {
                Some(f) => Ok(f),
                None => Err(Error::BadRequest),
            },
            None => Err(Error::BadRequest),
        }
    }

    fn put(&mut self, i: usize, value: FieldValue) -> (r: Result<(), Error>)
        requires
            i < T::spec_count(),
            match value {
                FieldValue::Text(_) => !T::spec_image(i as nat),
                FieldValue::Bytes(_) => T::spec_image(i as nat),
            },
        ensures
            old(self).value_at(i as nat) is Some ==> (r matches Err(e) && e is BadRequest)
                && final(self).value_at(i as nat) == old(self).value_at(i as nat),
            old(self).value_at(i as nat) is None ==> r is Ok && final(self).value_at(i as nat) == Some(value),
            forall|j: nat| j < T::spec_count() && j != i ==> #[trigger] final(self).value_at(j) == old(self).value_at(j),
    {
        proof {
            use_type_invariant(&*self);
        }
        if let Some(_) = &self.values[i] {
            return Err(Error::BadRequest);
        }
        let mut values = Self::empty_slots();
        std::mem::swap(&mut values, &mut self.values);
        values.set(i, Some(value));
        proof {
            assert forall|j: int| 0 <= j < values@.len() implies match #[trigger] values@[j] {
                Some(FieldValue::Text(_)) => !T::spec_image(j as nat),
                Some(FieldValue::Bytes(_)) => T::spec_image(j as nat),
                None => true,
            } by {
                if j != i {
                    assert(values@[j] == old(self).values@[j]);
                }
            }
        }
        self.values = values;
        Ok(())
    }

    /// Records a text field; a field submitted twice is a bad request.
    pub fn add_text(&mut self, field: T, text: String) -> (r: Result<(), Error>)
        requires
            !T::spec_image(field.spec_index()),
        ensures
            old(self).value_at(field.spec_index()) is Some ==> (r matches Err(e) && e is BadRequest),
            old(self).value_at(field.spec_index()) is None ==> r is Ok
                && final(self).value_at(field.spec_index()) == Some(FieldValue::Text(text)),
            r is Ok ==> forall|j: nat| j < T::spec_count() && j != field.spec_index() ==> #[trigger] final(self).value_at(j)
                == old(self).value_at(j),
    {
        let i = field.index();
        self.put(i, FieldValue::Text(text))
    }

    /// Records an uploaded image; a field submitted twice is a bad request.
    pub fn add_image(&mut self, field: T, data: Vec<u8>) -> (r: Result<(), Error>)
        requires
            T::spec_image(field.spec_index()),
        ensures
            old(self).value_at(field.spec_index()) is Some ==> (r matches Err(e) && e is BadRequest),
            old(self).value_at(field.spec_index()) is None ==> r is Ok
                && final(self).value_at(field.spec_index()) == Some(FieldValue::Bytes(data)),
            r is Ok ==> forall|j: nat| j < T::spec_count() && j != field.spec_index() ==> #[trigger] final(self).value_at(j)
                == old(self).value_at(j),
    {
        let i = field.index();
        self.put(i, FieldValue::Bytes(data))
    }

    /// Checks that every required field was submitted; a missing one is a
    /// bad request.
    pub fn finish(&self) -> (r: Result<(), Error>)
        ensures
            r is Ok <==> self.complete(),
            r matches Err(e) ==> e is BadRequest,
    {
        proof {
            use_type_invariant(self);
        }
        let n = T::count();
        let mut i: usize = 0;
        while i < n
            invariant
                n == T::spec_count(),
                self.values@.len() == n,
                i <= n,
                forall|j: nat| j < i && T::spec_required(j) ==> (#[trigger] self.value_at(j)) is Some,
            decreases n - i,
        {
            if T::required_at(i) && self.values[i].is_none() {
                assert(!(self.value_at(i as nat) is Some));
                return Err(Error::BadRequest);
            }
            i = i + 1;
        }
        Ok(())
    }

    /// The text submitted for the field at position `i`, if any.
    pub fn text_at(&self, i: usize) -> (r: Option<String>)
        requires
            i < T::spec_count(),
        ensures
            match r {
                Some(t) => text_of(self.value_at(i as nat)) == Some(t@),
                None => text_of(self.value_at(i as nat)) is None,
            },
    {
        proof {
            use_type_invariant(self);
        }
        match &self.values[i] {
            Some(FieldValue::Text(t)) => Some(t.clone()),
            _ => None,
        }
    }

    /// The upload submitted for the field at position `i`, if any.
    pub fn bytes_at(&self, i: usize) -> (r: Option<Vec<u8>>)
        requires
            i < T::spec_count(),
        ensures
            match r {
                Some(b) => bytes_of(self.value_at(i as nat)) == Some(b@),
                None => bytes_of(self.value_at(i as nat)) is None,
            },
    {
        proof {
            use_type_invariant(self);
        }
        match &self.values[i] {
            Some(FieldValue::Bytes(b)) => Some(b.clone()),
            _ => None,
        }
    }
}

/// Maximum length of a `multipart/form-data` request, in bytes.
pub const FORM_DATA_LENGTH_LIMIT: u64 = 9 * 1024 * 1024;

/// Maximum size of an uploaded image, in bytes.
pub const IMAGE_SIZE_LIMIT: usize = 8 * 1024 * 1024;

/// Maximum width and height of an uploaded image, in pixels.
pub const IMAGE_DIMENSION_LIMIT: u32 = 400;

/// A declared media type: type, subtype (without `+suffix`), suffix, and
/// whether parameters follow.
#[derive(Debug)]
pub struct ContentType {
    pub type_: String,
    pub subtype: String,
    pub suffix: Option<String>,
    pub has_params: bool,
}

/// A media type as text: type, subtype, suffix, and whether parameters
/// follow.
pub open spec fn content_type_view(c: ContentType) -> (Seq<char>, Seq<char>, Option<Seq<char>>, bool) {
    (c.type_@, c.subtype@, match c.suffix { Some(x) => Some(x@), None => None }, c.has_params)
}

/// The parts of the media type that `mime` reads from a text, or `None`
/// where the text is not a media type.
pub uninterp spec fn mime_parts(s: Seq<char>) -> Option<(Seq<char>, Seq<char>, Option<Seq<char>>, bool)>;

/// `s.parse::<mime::Mime>()`, split into type, subtype, suffix and whether
/// parameters follow; a function of `s` alone.
#[verifier::external_body]
fn parse_content_type(s: &str) -> (r: Option<ContentType>)
    ensures
        match r {
            Some(c) => mime_parts(s@) == Some(content_type_view(c)),
            None => mime_parts(s@) is None,
        },
{
    let m: mime::Mime = s.parse().ok()?;
    Some(ContentType {
        type_: m.type_().as_str().to_string(),
        subtype: m.subtype().as_str().to_string(),
        suffix: m.suffix().map(|x| x.as_str().to_string()),
        has_params: m.params().next().is_some(),
    })
}

/// What the content of an upload looks like.
#[derive(Debug, Clone, Copy, PartialEq, Eq, Structural)]
pub enum ImageKind {
    Png,
    Jpeg,
    Other,
}

/// The extension of a file name as `std::path::Path::extension` finds it.
pub uninterp spec fn path_extension(name: Seq<char>) -> Option<Seq<char>>;

/// The image format that `image::guess_format` recognises in some bytes:
/// `None` where it recognises none.
pub uninterp spec fn guessed_image_kind(data: Seq<u8>) -> Option<ImageKind>;

/// Width and height of the image that `image::load_from_memory` decodes
/// from some bytes, or `None` where decoding fails.
pub uninterp spec fn decoded_dimensions(data: Seq<u8>) -> Option<(u32, u32)>;

/// `std::path::Path::new(name).extension()`, as text: a function of the
/// name alone.
#[verifier::external_body]
pub(crate) fn file_extension(name: &str) -> (r: Option<String>)
    ensures
        match r {
            Some(e) => path_extension(name@) == Some(e@),
            None => path_extension(name@) is None,
        },
{
    match std::path::Path::new(name).extension() {
        Some(e) => e.to_str().map(|x| x.to_string()),
        None => None,
    }
}

/// `image::guess_format`, with PNG and JPEG told apart from every other
/// format; `None` where the crate recognises no format. A function of the
/// bytes alone.
#[verifier::external_body]
fn guess_image_kind(data: &[u8]) -> (r: Option<ImageKind>)
    ensures
        r == guessed_image_kind(data@),
{
    match image::guess_format(data) {
        Ok(image::ImageFormat::Png) => Some(ImageKind::Png),
        Ok(image::ImageFormat::Jpeg) => Some(ImageKind::Jpeg),
        Ok(_) => Some(ImageKind::Other),
        Err(_) => None,
    }
}

/// `image::load_from_memory` followed by `GenericImageView::dimensions`:
/// width and height of the decoded image, or `None` where decoding fails. A
/// function of the bytes alone.
#[verifier::external_body]
fn image_dimensions(data: &[u8]) -> (r: Option<(u32, u32)>)
    ensures
        r == decoded_dimensions(data@),
{
    match image::load_from_memory(data) {
        Ok(img) => Some(image::GenericImageView::dimensions(&img)),
        Err(_) => None,
    }
}

/// A character with ASCII upper case turned into lower case.
pub open spec fn lower_char(c: char) -> char {
    if 'A' <= c && c <= 'Z' {
        ((c as u32) + 32) as char
    } else {
        c
    }
}

/// A text with ASCII upper case turned into lower case.
pub open spec fn ascii_lower(s: Seq<char>) -> Seq<char> {
    s.map_values(|c: char| lower_char(c))
}

/// Whether a text equals a lower-case text once ASCII letters are lowered.
pub fn lower_eq(s: &str, lower: &str) -> (r: bool)
    ensures
        r == (ascii_lower(s@) == lower@),
{
    let n = s.unicode_len();
    let m = lower.unicode_len();
    if n != m {
        assert(ascii_lower(s@).len() != lower@.len());
        return false;
    }
    let mut i: usize = 0;
    while i < n
        invariant
            n == s@.len(),
            m == lower@.len(),
            n == m,
            i <= n,
            forall|j: int| 0 <= j < i ==> lower_char(s@[j]) == lower@[j],
        decreases n - i,
    {
        let c = s.get_char(i);
        let d = lower.get_char(i);
        let same = if 'A' <= c && c <= 'Z' {
            (c as u32) + 32 == (d as u32)
        } else {
            c == d
        };
        if !same {
            assert(ascii_lower(s@)[i as int] != lower@[i as int]);
            return false;
        }
        i = i + 1;
    }
    assert(ascii_lower(s@) =~= lower@);
    true
}

/// How an uploaded image is judged.
#[derive(Debug, Clone, Copy, PartialEq, Eq, Structural)]
pub enum ImageVerdict {
    Accepted,
    BadRequest,
    Unsupported,
    FileTooLarge,
    DimensionsTooLarge,
}

/// The declared type is `image/<subtype>` (ignoring case).
pub open spec fn declares(ct: (Seq<char>, Seq<char>, Option<Seq<char>>, bool), subtype: Seq<char>) -> bool {
    ascii_lower(ct.0) == "image"@ && ascii_lower(ct.1) == subtype
}

/// The declared type is exactly `image/<subtype>`, without suffix or
/// parameters.
pub open spec fn declares_exactly(ct: (Seq<char>, Seq<char>, Option<Seq<char>>, bool), subtype: Seq<char>) -> bool {
    declares(ct, subtype) && ct.2 is None && !ct.3
}

/// The judgement on an uploaded image: its file name must have a PNG or
/// JPEG extension that agrees with the declared type, it must be at most
/// 8 MiB, its content must be the declared format, and it must decode to at
/// most 400 by 400 pixels.
pub open spec fn spec_image_verdict(file_name: Option<Seq<char>>, declared: Option<Seq<char>>, data: Seq<u8>) -> ImageVerdict {
    match file_name {
        None => ImageVerdict::BadRequest,
        Some(name) => match path_extension(name) {
            None => ImageVerdict::Unsupported,
            Some(e) => {
                let ext = ascii_lower(e);
                if !(ext == "png"@ || ext == "jpeg"@ || ext == "jpg"@) {
                    ImageVerdict::Unsupported
                } else {
                    match match declared { Some(d) => mime_parts(d), None => None } {
                        None => ImageVerdict::BadRequest,
                        Some(c) => if !((declares(c, "png"@) && ext == "png"@) || (!declares(c, "png"@)
                            && declares(c, "jpeg"@) && (ext == "jpeg"@ || ext == "jpg"@))) {
                            ImageVerdict::Unsupported
                        } else if data.len() > IMAGE_SIZE_LIMIT {
                            ImageVerdict::FileTooLarge
                        } else {
                            match guessed_image_kind(data) {
                                Some(ImageKind::Png) => if !declares_exactly(c, "png"@) {
                                    ImageVerdict::Unsupported
                                } else {
                                    dimension_verdict(data)
                                },
                                Some(ImageKind::Jpeg) => if !declares_exactly(c, "jpeg"@) {
                                    ImageVerdict::Unsupported
                                } else {
                                    dimension_verdict(data)
                                },
                                _ => ImageVerdict::Unsupported,
                            }
                        },
                    }
                }
            },
        },
    }
}

/// The judgement on the decoded size of an image.
pub open spec fn dimension_verdict(data: Seq<u8>) -> ImageVerdict {
    match decoded_dimensions(data) {
        None => ImageVerdict::Unsupported,
        Some((w, h)) => if w > IMAGE_DIMENSION_LIMIT || h > IMAGE_DIMENSION_LIMIT {
            ImageVerdict::DimensionsTooLarge
        } else {
            ImageVerdict::Accepted
        },
    }
}

/// An accepted upload is a PNG or JPEG image of at most 8 MiB that decodes
/// to at most 400 by 400 pixels, sent with a file name and a declared type.
pub proof fn law_accepted_image_within_limits(
    file_name: Option<Seq<char>>,
    declared: Option<Seq<char>>,
    data: Seq<u8>,
)
    requires
        spec_image_verdict(file_name, declared, data) == ImageVerdict::Accepted,
    ensures
        file_name is Some && declared is Some,
        data.len() <= IMAGE_SIZE_LIMIT,
        guessed_image_kind(data) == Some(ImageKind::Png) || guessed_image_kind(data) == Some(ImageKind::Jpeg),
        decoded_dimensions(data) matches Some((w, h)) && w <= IMAGE_DIMENSION_LIMIT && h <= IMAGE_DIMENSION_LIMIT,
{
}

/// The judgement on an upload depends on its file name only through the
/// ASCII lower-case form of the name's extension: two names whose
/// extensions agree once lowered (such as `IMG.JPG` and `img.jpg`) are
/// judged alike, whatever the declared type and content.
pub proof fn law_image_verdict_ignores_extension_case(
    name1: Seq<char>,
    name2: Seq<char>,
    declared: Option<Seq<char>>,
    data: Seq<u8>,
)
    requires
        path_extension(name1) matches Some(e1) && path_extension(name2) matches Some(e2) && ascii_lower(e1)
            == ascii_lower(e2),
    ensures
        spec_image_verdict(Some(name1), declared, data) == spec_image_verdict(Some(name2), declared, data),
{
}

/// The lower-case names of the image formats, lowered, stay as they are,
/// and they are all different.
proof fn lemma_image_names()
    ensures
        ascii_lower("image"@) == "image"@,
        ascii_lower("jpeg"@) == "jpeg"@,
        ascii_lower("png"@) == "png"@,
        "jpg"@ != "png"@,
        "jpeg"@ != "png"@,
        "jpeg"@ != "jpg"@,
{
    reveal_strlit("image");
    reveal_strlit("jpeg");
    reveal_strlit("jpg");
    reveal_strlit("png");
    assert(ascii_lower("image"@) =~= "image"@);
    assert(ascii_lower("jpeg"@) =~= "jpeg"@);
    assert(ascii_lower("png"@) =~= "png"@);
    assert("jpg"@[0] != "png"@[0]);
}

/// A JPEG upload is accepted whatever the case of its extension: a file
/// whose extension lowers to `jpg` or `jpeg`, declared exactly as
/// `image/jpeg`, of at most 8 MiB, whose content is JPEG and decodes to at
/// most 400 by 400 pixels.
pub proof fn law_jpeg_accepted_in_any_case(name: Seq<char>, declared: Seq<char>, data: Seq<u8>, w: u32, h: u32)
    requires
        path_extension(name) matches Some(e) && (ascii_lower(e) == "jpg"@ || ascii_lower(e) == "jpeg"@),
        mime_parts(declared) == Some(("image"@, "jpeg"@, None::<Seq<char>>, false)),
        data.len() <= IMAGE_SIZE_LIMIT,
        guessed_image_kind(data) == Some(ImageKind::Jpeg),
        decoded_dimensions(data) == Some((w, h)),
        w <= IMAGE_DIMENSION_LIMIT,
        h <= IMAGE_DIMENSION_LIMIT,
    ensures
        spec_image_verdict(Some(name), Some(declared), data) == ImageVerdict::Accepted,
{
    lemma_image_names();
}

/// A PNG upload is accepted whatever the case of its extension: a file
/// whose extension lowers to `png`, declared exactly as `image/png`, of at
/// most 8 MiB, whose content is PNG and decodes to at most 400 by 400 pixels.
pub proof fn law_png_accepted_in_any_case(name: Seq<char>, declared: Seq<char>, data: Seq<u8>, w: u32, h: u32)
    requires
        path_extension(name) matches Some(e) && ascii_lower(e) == "png"@,
        mime_parts(declared) == Some(("image"@, "png"@, None::<Seq<char>>, false)),
        data.len() <= IMAGE_SIZE_LIMIT,
        guessed_image_kind(data) == Some(ImageKind::Png),
        decoded_dimensions(data) == Some((w, h)),
        w <= IMAGE_DIMENSION_LIMIT,
        h <= IMAGE_DIMENSION_LIMIT,
    ensures
        spec_image_verdict(Some(name), Some(declared), data) == ImageVerdict::Accepted,
{
    lemma_image_names();
}

/// The error that answers a rejected image.
pub open spec fn image_error_matches(v: ImageVerdict, e: Error) -> bool {
    match v {
        ImageVerdict::Accepted => false,
        ImageVerdict::BadRequest => e is BadRequest,
        ImageVerdict::Unsupported => e is UnsupportedImageFormat,
        ImageVerdict::FileTooLarge => e matches Error::PayloadTooLarge(m)
            && m@ == "File size cannot exceed 8MiB"@,
        ImageVerdict::DimensionsTooLarge => e matches Error::PayloadTooLarge(m)
            && m@ == "Image dimensions cannot exceed 400px x 400px"@,
    }
}

fn declares_image(ct: &ContentType, subtype: &str) -> (r: bool)
    ensures
        r == declares(content_type_view(*ct), subtype@),
{
    lower_eq(ct.type_.as_str(), "image") && lower_eq(ct.subtype.as_str(), subtype)
}

fn declares_image_exactly(ct: &ContentType, subtype: &str) -> (r: bool)
    ensures
        r == declares_exactly(content_type_view(*ct), subtype@),
{
    declares_image(ct, subtype) && ct.suffix.is_none() && !ct.has_params
}

fn check_dimensions(data: &[u8]) -> (r: Result<(), Error>)
    ensures
        match dimension_verdict(data@) {
            ImageVerdict::Accepted => r is Ok,
            v => r matches Err(e) && image_error_matches(v, e),
        },
{
    match image_dimensions(data) {
        None => Err(Error::UnsupportedImageFormat),
        Some((w, h)) => {
            if w > IMAGE_DIMENSION_LIMIT || h > IMAGE_DIMENSION_LIMIT {
                Err(Error::PayloadTooLarge(String::from_str("Image dimensions cannot exceed 400px x 400px")))
            } else {
                Ok(())
            }
        },
    }
}

/// Checks an uploaded image field: file name, declared type, size, actual
/// format and dimensions.
pub fn validate_image_field(file_name: Option<&str>, content_type: Option<&str>, data: &[u8]) -> (r: Result<(), Error>)
    ensures
        match spec_image_verdict(
            match file_name { Some(n) => Some(n@), None => None },
            match content_type { Some(c) => Some(c@), None => None },
            data@,
        ) {
            ImageVerdict::Accepted => r is Ok,
            v => r matches Err(e) && image_error_matches(v, e),
        },
{
    let name = match file_name {
        Some(n) => n,
        None => return Err(Error::BadRequest),
    };
    let ext = match file_extension(name) {
        Some(e) => e,
        None => return Err(Error::UnsupportedImageFormat),
    };
    let is_png = lower_eq(ext.as_str(), "png");
    let is_jpeg = lower_eq(ext.as_str(), "jpeg") || lower_eq(ext.as_str(), "jpg");
    if !(is_png || is_jpeg) {
        return Err(Error::UnsupportedImageFormat);
    }
    let parsed = match content_type {
        Some(c) => parse_content_type(c),
        None => None,
    };
    let ct = match &parsed {
        Some(c) => c,
        None => return Err(Error::BadRequest),
    };
    if declares_image(ct, "png") {
        if !is_png {
            return Err(Error::UnsupportedImageFormat);
        }
    } else if declares_image(ct, "jpeg") {
        if !is_jpeg {
            return Err(Error::UnsupportedImageFormat);
        }
    } else {
        return Err(Error::UnsupportedImageFormat);
    }
    if data.len() > IMAGE_SIZE_LIMIT {
        return Err(Error::PayloadTooLarge(String::from_str("File size cannot exceed 8MiB")));
    }
    match guess_image_kind(data) {
        Some(ImageKind::Png) => {
            if !declares_image_exactly(ct, "png") {
                return Err(Error::UnsupportedImageFormat);
            }
        },
        Some(ImageKind::Jpeg) => {
            if !declares_image_exactly(ct, "jpeg") {
                return Err(Error::UnsupportedImageFormat);
            }
        },
        _ => return Err(Error::UnsupportedImageFormat),
    }
    check_dimensions(data)
}

/// A calendar date.
#[derive(Debug, Clone, Copy, PartialEq, Eq, Structural)]
pub struct Date {
    pub year: i32,
    pub month: u8,
    pub day: u8,
}

/// The date that a `YYYY-MM-DD` text writes, as `time` reads it with the
/// description `[year]-[month]-[day]`; `None` where it is no such date.
pub uninterp spec fn calendar_date_of(s: Seq<char>) -> Option<Date>;

/// `time::Date::parse` with the description `[year]-[month]-[day]`: the
/// date, or `None` where the text is not one; a function of the text alone.
#[verifier::external_body]
fn parse_date(s: &str) -> (r: Option<Date>)
    ensures
        r == calendar_date_of(s@),
{
    let description = time::format_description::parse("[year]-[month]-[day]").ok()?;
    let d = time::Date::parse(s, &description).ok()?;
    Some(Date { year: d.year(), month: u8::from(d.month()), day: d.day() })
}

/// The text of the field at position `i` of a form.
pub open spec fn form_text<T: MultipartFormFields>(f: MultipartForm<T>, i: nat) -> Seq<char> {
    text_of(f.value_at(i)).unwrap()
}

/// Details of an individual collected at onboarding.
#[derive(Debug)]
pub struct IndividualDetails {
    pub first_name: String,
    pub last_name: String,
    pub dob: Date,
    pub dial_code: String,
    pub phone_number: String,
    pub country: String,
    pub address: String,
    pub city: String,
    pub postal_code: String,
    pub tax_id: Option<String>,
    pub time_zone: String,
    pub profile_picture: Option<Vec<u8>>,
}

fn required_text<T: MultipartFormFields>(form: &MultipartForm<T>, i: usize) -> (r: String)
    requires
        form.complete(),
        i < T::spec_count(),
        T::spec_required(i as nat),
        !T::spec_image(i as nat),
    ensures
        text_of(form.value_at(i as nat)) == Some(r@),
{
    proof {
        use_type_invariant(form);
        assert(form.value_at(i as nat) is Some);
        form.lemma_slots(i as nat);
    }
    form.text_at(i).unwrap()
}

/// The view of an optional text.
pub open spec fn opt_text(o: Option<String>) -> Option<Seq<char>> {
    match o {
        Some(s) => Some(s@),
        None => None,
    }
}

/// The view of optional bytes.
pub open spec fn opt_bytes(o: Option<Vec<u8>>) -> Option<Seq<u8>> {
    match o {
        Some(b) => Some(b@),
        None => None,
    }
}

impl IndividualDetails {
    /// The details of a submitted individual form: all required fields must
    /// be present and the date of birth must be a date; otherwise it is a
    /// bad request.
    pub fn from_form(form: &MultipartForm<IndividualDetailNames>) -> (r: Result<IndividualDetails, Error>)
        ensures
            r is Ok <==> form.complete() && calendar_date_of(form_text(*form, 2)) is Some,
            r matches Err(e) ==> e is BadRequest,
            r matches Ok(d) ==> {
                &&& d.first_name@ == form_text(*form, 0)
                &&& d.last_name@ == form_text(*form, 1)
                &&& Some(d.dob) == calendar_date_of(form_text(*form, 2))
                &&& d.dial_code@ == form_text(*form, 3)
                &&& d.phone_number@ == form_text(*form, 4)
                &&& d.country@ == form_text(*form, 5)
                &&& d.address@ == form_text(*form, 6)
                &&& d.city@ == form_text(*form, 7)
                &&& d.postal_code@ == form_text(*form, 8)
                &&& opt_text(d.tax_id) == text_of(form.value_at(9))
                &&& d.time_zone@ == form_text(*form, 10)
                &&& opt_bytes(d.profile_picture) == bytes_of(form.value_at(11))
            },
    {
        form.finish()?;
        let dob_text = required_text(form, 2);
        let dob = match parse_date(dob_text.as_str()) {
            Some(d) => d,
            None => return Err(Error::BadRequest),
        };
        Ok(IndividualDetails {
            first_name: required_text(form, 0),
            last_name: required_text(form, 1),
            dob,
            dial_code: required_text(form, 3),
            phone_number: required_text(form, 4),
            country: required_text(form, 5),
            address: required_text(form, 6),
            city: required_text(form, 7),
            postal_code: required_text(form, 8),
            tax_id: form.text_at(9),
            time_zone: required_text(form, 10),
            profile_picture: form.bytes_at(11),
        })
    }
}

/// Details of an EOR administrator collected at onboarding.
#[derive(Debug)]
pub struct EorDetails {
    pub first_name: String,
    pub last_name: String,
    pub dob: Date,
    pub dial_code: String,
    pub phone_number: String,
    pub country: String,
    pub time_zone: String,
    pub profile_picture: Option<Vec<u8>>,
}

impl EorDetails {
    /// The details of a submitted administrator form: all required fields
    /// must be present and the date of birth must be a date; otherwise it is
    /// a bad request.
    pub fn from_form(form: &MultipartForm<EorDetailNames>) -> (r: Result<EorDetails, Error>)
        ensures
            r is Ok <==> form.complete() && calendar_date_of(form_text(*form, 2)) is Some,
            r matches Err(e) ==> e is BadRequest,
            r matches Ok(d) ==> {
                &&& d.first_name@ == form_text(*form, 0)
                &&& d.last_name@ == form_text(*form, 1)
                &&& Some(d.dob) == calendar_date_of(form_text(*form, 2))
                &&& d.dial_code@ == form_text(*form, 3)
                &&& d.phone_number@ == form_text(*form, 4)
                &&& d.country@ == form_text(*form, 5)
                &&& d.time_zone@ == form_text(*form, 6)
                &&& opt_bytes(d.profile_picture) == bytes_of(form.value_at(7))
            },
    {
        form.finish()?;
        let dob_text = required_text(form, 2);
        let dob = match parse_date(dob_text.as_str()) {
            Some(d) => d,
            None => return Err(Error::BadRequest),
        };
        Ok(EorDetails {
            first_name: required_text(form, 0),
            last_name: required_text(form, 1),
            dob,
            dial_code: required_text(form, 3),
            phone_number: required_text(form, 4),
            country: required_text(form, 5),
            time_zone: required_text(form, 6),
            profile_picture: form.bytes_at(7),
        })
    }
}

/// Bank details of a contractor.
#[derive(Debug)]
pub struct BankDetails {
    pub bank_name: String,
    pub account_name: String,
    pub account_number: String,
}

} // verus!

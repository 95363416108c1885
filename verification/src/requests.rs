//! Plain request and record types of the catalogue, branch and custom-field
//! endpoints.

use vstd::prelude::*;

verus! {

/// A page of country codes.
#[derive(Debug, Clone, Copy, PartialEq, Eq, Structural)]
pub struct GetManyCountryCodeQuery {
    pub per_page: Option<u32>,
    pub page: Option<u32>,
}

/// A country code to store, or whose long name to replace.
#[derive(Debug)]
pub struct PutOneCountryCode {
    pub code: String,
    pub long_name: String,
}

/// A country code to delete.
#[derive(Debug)]
pub struct DeleteOneCountryCode {
    pub code: String,
}

/// A stored country code.
#[derive(Debug)]
pub struct CountryCode {
    pub code: String,
    pub long_name: String,
}

/// A page of currency codes.
#[derive(Debug, Clone, Copy, PartialEq, Eq, Structural)]
pub struct GetManyCurrencyCodeQuery {
    pub per_page: Option<u32>,
    pub page: Option<u32>,
}

/// A currency code to store.
#[derive(Debug)]
pub struct PutOneCurrencyCode {
    pub code: String,
}

/// A currency code to delete.
#[derive(Debug)]
pub struct DeleteOneCurrencyCode {
    pub code: String,
}

/// A stored currency code.
#[derive(Debug)]
pub struct CurrencyCode {
    pub code: String,
}

/// A page of a client's branches.
#[derive(Debug, Clone, Copy, PartialEq, Eq, Structural)]
pub struct GetBranchDetailsRequest {
    pub page: Option<u32>,
    pub per_page: Option<u32>,
}

/// The section of a user's details that a custom field belongs to.
#[allow(non_camel_case_types)]
#[derive(Debug, Clone, Copy, PartialEq, Eq, Structural)]
pub enum FieldDetailType {
    PERSONAL,
    EMPLOYMENT,
    BANK,
    PAYROLL,
}

/// The format of a custom field's values.
#[allow(non_camel_case_types)]
#[derive(Debug, Clone, Copy, PartialEq, Eq, Structural)]
pub enum FieldDetailFormat {
    SHORT_TEXT,
    LONG_TEXT,
    NUMBER,
    ACCOUNTING_NUMBER,
    DD_MM_YY,
    SINGLE_SELECT,
    MULTIPLE_SELECT,
}

/// A custom field that a client defines for itself.
#[derive(Debug)]
pub struct PostCustomFieldRequestForClient {
    pub field_name: String,
    pub field_type: FieldDetailType,
    pub field_format: FieldDetailFormat,
}

/// A page of a client's custom fields.
#[derive(Debug, Clone, Copy, PartialEq, Eq, Structural)]
pub struct GetCustomFieldRequest {
    pub page: Option<u32>,
    pub per_page: Option<u32>,
}

} // verus!

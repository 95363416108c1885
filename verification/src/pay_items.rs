//! Pay items of a client's branch: their kinds and methods as stored, the
//! page of a listing, and the checks before a pay item is deleted.

use vstd::prelude::*;

use crate::credentials::{argon2_verify, text_eq, utf8_bytes, verify_encoded};
use crate::error::Error;

verus! {

/// What a pay item is.
#[derive(Debug, Clone, Copy, PartialEq, Eq, Structural)]
pub enum PayItemType {
    Tax,
    StatutoryFund,
    Allowance,
    Incentive,
    Commission,
    Bonus,
    Claim,
    Others,
}

/// The stored name of a pay item type.
pub open spec fn spec_pay_item_type_str(t: PayItemType) -> Seq<char> {
    match t {
        PayItemType::Tax => "tax"@,
        PayItemType::StatutoryFund => "statutory_fund"@,
        PayItemType::Allowance => "allowance"@,
        PayItemType::Incentive => "incentive"@,
        PayItemType::Commission => "commission"@,
        PayItemType::Bonus => "bonus"@,
        PayItemType::Claim => "claim"@,
        PayItemType::Others => "others"@,
    }
}

/// The pay item type with a given stored name.
pub open spec fn spec_pay_item_type_from_str(s: Seq<char>) -> Option<PayItemType> {
    if s == "tax"@ {
        Some(PayItemType::Tax)
    } else if s == "statutory_fund"@ {
        Some(PayItemType::StatutoryFund)
    } else if s == "allowance"@ {
        Some(PayItemType::Allowance)
    } else if s == "incentive"@ {
        Some(PayItemType::Incentive)
    } else if s == "commission"@ {
        Some(PayItemType::Commission)
    } else if s == "bonus"@ {
        Some(PayItemType::Bonus)
    } else if s == "claim"@ {
        Some(PayItemType::Claim)
    } else if s == "others"@ {
        Some(PayItemType::Others)
    } else {
        None
    }
}

impl PayItemType {
    /// The stored name of this type.
    pub fn as_str(&self) -> (s: &'static str)
        ensures
            s@ == spec_pay_item_type_str(*self),
    {
        match self {
            PayItemType::Tax => "tax",
            PayItemType::StatutoryFund => "statutory_fund",
            PayItemType::Allowance => "allowance",
            PayItemType::Incentive => "incentive",
            PayItemType::Commission => "commission",
            PayItemType::Bonus => "bonus",
            PayItemType::Claim => "claim",
            PayItemType::Others => "others",
        }
    }

    /// The type with a given stored name.
    pub fn from_str(string: &str) -> (r: Option<PayItemType>)
        ensures
            r == spec_pay_item_type_from_str(string@),
    {
        if text_eq(string, "tax") {
            Some(PayItemType::Tax)
        } else if text_eq(string, "statutory_fund") {
            Some(PayItemType::StatutoryFund)
        } else if text_eq(string, "allowance") {
            Some(PayItemType::Allowance)
        } else if text_eq(string, "incentive") {
            Some(PayItemType::Incentive)
        } else if text_eq(string, "commission") {
            Some(PayItemType::Commission)
        } else if text_eq(string, "bonus") {
            Some(PayItemType::Bonus)
        } else if text_eq(string, "claim") {
            Some(PayItemType::Claim)
        } else if text_eq(string, "others") {
            Some(PayItemType::Others)
        } else {
            None
        }
    }
}

/// How a pay item enters the payroll. Statement-only items show on the
/// payroll table and report, but not on the payslip nor in the totals;
/// employer's contributions show on all three but not in the totals.
#[derive(Debug, Clone, Copy, PartialEq, Eq, Structural)]
pub enum PayItemMethod {
    Addition,
    Deduction,
    EmployersContribution,
    StatementOnly,
}

/// The stored name of a pay item method.
pub open spec fn spec_pay_item_method_str(m: PayItemMethod) -> Seq<char> {
    match m {
        PayItemMethod::Addition => "addition"@,
        PayItemMethod::Deduction => "deduction"@,
        PayItemMethod::EmployersContribution => "employers_contribution"@,
        PayItemMethod::StatementOnly => "statement_only"@,
    }
}

/// The pay item method with a given stored name.
pub open spec fn spec_pay_item_method_from_str(s: Seq<char>) -> Option<PayItemMethod> {
    if s == "addition"@ {
        Some(PayItemMethod::Addition)
    } else if s == "deduction"@ {
        Some(PayItemMethod::Deduction)
    } else if s == "employers_contribution"@ {
        Some(PayItemMethod::EmployersContribution)
    } else if s == "statement_only"@ {
        Some(PayItemMethod::StatementOnly)
    } else {
        None
    }
}

impl PayItemMethod {
    /// The stored name of this method.
    pub fn as_str(&self) -> (s: &'static str)
        ensures
            s@ == spec_pay_item_method_str(*self),
    {
        match self {
            PayItemMethod::Addition => "addition",
            PayItemMethod::Deduction => "deduction",
            PayItemMethod::EmployersContribution => "employers_contribution",
            PayItemMethod::StatementOnly => "statement_only",
        }
    }

    /// The method with a given stored name.
    pub fn from_str(string: &str) -> (r: Option<PayItemMethod>)
        ensures
            r == spec_pay_item_method_from_str(string@),
    {
        if text_eq(string, "addition") {
            Some(PayItemMethod::Addition)
        } else if text_eq(string, "deduction") {
            Some(PayItemMethod::Deduction)
        } else if text_eq(string, "employers_contribution") {
            Some(PayItemMethod::EmployersContribution)
        } else if text_eq(string, "statement_only") {
            Some(PayItemMethod::StatementOnly)
        } else {
            None
        }
    }
}

/// Reading the stored name of a pay item type gives the type back, and a
/// name is read only as the type that it names.
pub proof fn lemma_pay_item_type_round_trip(t: PayItemType, s: Seq<char>)
    ensures
        spec_pay_item_type_from_str(spec_pay_item_type_str(t)) == Some(t),
        spec_pay_item_type_from_str(s) == Some(t) ==> spec_pay_item_type_str(t) == s,
{
    reveal_strlit("tax");
    reveal_strlit("statutory_fund");
    reveal_strlit("allowance");
    reveal_strlit("incentive");
    reveal_strlit("commission");
    reveal_strlit("bonus");
    reveal_strlit("claim");
    reveal_strlit("others");
    assert("tax"@.len() == 3 && "statutory_fund"@.len() == 14 && "allowance"@.len() == 9);
    assert("incentive"@.len() == 9 && "commission"@.len() == 10 && "bonus"@.len() == 5);
    assert("claim"@.len() == 5 && "others"@.len() == 6);
    assert("tax"@ != "bonus"@ && "tax"@ != "claim"@ && "bonus"@ != "claim"@) by {
        assert("tax"@[0] != "bonus"@[0] && "tax"@[0] != "claim"@[0]);
        assert("bonus"@[0] != "claim"@[0]);
    }
    assert("allowance"@ != "incentive"@ && "allowance"@ != "commission"@ && "incentive"@ != "commission"@) by {
        assert("allowance"@[0] != "incentive"@[0] && "allowance"@[0] != "commission"@[0]);
        assert("incentive"@[0] != "commission"@[0]);
    }
}

/// Reading the stored name of a pay item method gives the method back, and a
/// name is read only as the method that it names.
pub proof fn lemma_pay_item_method_round_trip(m: PayItemMethod, s: Seq<char>)
    ensures
        spec_pay_item_method_from_str(spec_pay_item_method_str(m)) == Some(m),
        spec_pay_item_method_from_str(s) == Some(m) ==> spec_pay_item_method_str(m) == s,
{
    reveal_strlit("addition");
    reveal_strlit("deduction");
    reveal_strlit("employers_contribution");
    reveal_strlit("statement_only");
    assert("addition"@.len() == 8 && "deduction"@.len() == 9);
    assert("employers_contribution"@.len() == 22 && "statement_only"@.len() == 14);
}

/// A page of pay items of a branch, optionally searched by name.
#[derive(Debug)]
pub struct PayItemsIndexQuery {
    pub branch_ulid: u128,
    pub page: u32,
    pub per_page: u32,
    pub search_param: Option<String>,
}

impl PayItemsIndexQuery {
    /// How many pay items a page holds.
    pub fn limit(&self) -> (r: u32)
        ensures
            r == self.per_page,
    {
        self.per_page
    }

    /// How many pay items precede the page: pages count from 1.
    pub fn offset(&self) -> (r: u32)
        requires
            self.page >= 1,
            self.per_page >= 1,
            (self.page - 1) * self.per_page <= u32::MAX,
        ensures
            r == (self.page - 1) * self.per_page,
    {
        (self.page - 1) * self.per_page
    }
}

/// A pay item to create in a branch.
#[derive(Debug)]
pub struct CreatePayItem {
    pub branch_ulid: u128,
    pub pay_item_type: PayItemType,
    pub pay_item_custom_name: String,
    pub use_pay_item_type_name: bool,
    pub pay_item_method: PayItemMethod,
    pub employers_contribution: String,
    pub require_employee_id: bool,
}

/// A stored pay item.
#[derive(Debug)]
pub struct PayItem {
    pub ulid: u128,
    pub branch_ulid: u128,
    pub pay_item_type: PayItemType,
    pub pay_item_custom_name: String,
    pub use_pay_item_type_name: bool,
    pub pay_item_method: PayItemMethod,
    pub employers_contribution: String,
    pub require_employee_id: bool,
}

/// Request to delete a pay item: the user's password confirms it.
#[derive(Debug)]
pub struct DeletePayItemRequest {
    pub password: String,
}

/// Checks the password that confirms a deletion against the user's stored
/// hash: a user without a stored password is not found, a hash that cannot
/// be read is an internal error, and a wrong password is unauthorised.
pub fn confirm_with_password(stored_hash: Option<&str>, password: &str) -> (r: Result<(), Error>)
    ensures
        match stored_hash {
            None => r matches Err(e) && e is NotFound,
            Some(h) => match argon2_verify(h@, utf8_bytes(password@)) {
                Some(true) => r is Ok,
                Some(false) => r matches Err(Error::UnauthorizedVerbose(m)) && m@ == "Invalid password"@,
                None => r matches Err(e) && e is Internal,
            },
        },
{
    let hash = match stored_hash {
        Some(h) => h,
        None => return Err(Error::NotFound),
    };
    match verify_encoded(hash, password.as_bytes()) {
        Some(true) => Ok(()),
        Some(false) => Err(Error::UnauthorizedVerbose(String::from_str("Invalid password"))),
        None => Err(Error::Internal),
    }
}

} // verus!

//! Adding contractors in bulk: which uploads are read, and the steps that
//! each row of an upload goes through.

use vstd::prelude::*;

use crate::credentials::text_eq;
use crate::error::Error;
use crate::onboarding::{file_extension, path_extension};

verus! {

/// The kind of spreadsheet an upload is.
#[derive(Debug, Clone, Copy, PartialEq, Eq, Structural)]
pub enum FileType {
    Csv,
    Excel,
}

/// The kind of spreadsheet that a file name's extension announces.
pub open spec fn spec_file_type(file_name: Seq<char>) -> Option<FileType> {
    match path_extension(file_name) {
        Some(e) => if e == "xls"@ || e == "xlsx"@ || e == "xlsb"@ || e == "ods"@ {
            Some(FileType::Excel)
        } else if e == "csv"@ {
            Some(FileType::Csv)
        } else {
            None
        },
        None => None,
    }
}

/// Determines the kind of an upload from its file name; an unknown
/// extension is a bad request.
pub fn file_type(file_name: &str) -> (r: Result<FileType, Error>)
    ensures
        match spec_file_type(file_name@) {
            Some(t) => r == Ok::<FileType, Error>(t),
            None => r matches Err(Error::BadRequestVerbose(m))
                && m@ == "Cannot determine the file type from the file name"@,
        },
{
    let bad = Error::BadRequestVerbose(String::from_str("Cannot determine the file type from the file name"));
    match file_extension(file_name) {
        Some(e) => {
            let e = e.as_str();
            if text_eq(e, "xls") || text_eq(e, "xlsx") || text_eq(e, "xlsb") || text_eq(e, "ods") {
                Ok(FileType::Excel)
            } else if text_eq(e, "csv") {
                Ok(FileType::Csv)
            } else {
                Err(bad)
            }
        },
        None => Err(bad),
    }
}

/// The records of CSV data read by the csv crate with its defaults and no
/// header row, each record as its fields; `None` where the data is not CSV
/// that the crate reads.
pub uninterp spec fn csv_rows(data: Seq<u8>) -> Option<Seq<Seq<Seq<char>>>>;

/// The fields of records, as text.
pub open spec fn records_view(v: Seq<Vec<String>>) -> Seq<Seq<Seq<char>>> {
    v.map_values(|r: Vec<String>| r@.map_values(|f: String| f@))
}

/// Reads CSV data with `csv::ReaderBuilder`, headers switched off, and
/// collects the records. Claimed of it: the records are `csv_rows` of the
/// data, and, the reader not being flexible, every record has as many fields
/// as the first (a record of another length is an error).
#[verifier::external_body]
fn read_csv_records(data: &[u8]) -> (r: Option<Vec<Vec<String>>>)
    ensures
        match r {
            Some(v) => csv_rows(data@) == Some(records_view(v@))
                && forall|i: int| 0 <= i < v.len() ==> (#[trigger] v@[i]).len() == v@[0].len(),
            None => csv_rows(data@) is None,
        },
{
    let mut reader = csv::ReaderBuilder::new().has_headers(false).from_reader(data);
    let records: Result<Vec<csv::StringRecord>, csv::Error> = reader.records().collect();
    match records {
        Ok(rs) => Some(rs.iter().map(|r| r.iter().map(String::from).collect()).collect()),
        Err(_) => None,
    }
}

/// Splits the records of an upload into its header, the first record, and
/// its rows. The first record is taken out with `swap_remove`: the last row
/// takes its place, so the rows are those after the header with the last one
/// moved to the front. No records, no header.
pub fn split_header(records: Vec<Vec<String>>) -> (r: Option<(Vec<String>, Vec<Vec<String>>)>)
    ensures
        records@.len() == 0 <==> r is None,
        r matches Some((h, rows)) ==> h == records@[0] && rows@ == records@.update(
            0,
            records@.last(),
        ).drop_last(),
{
    let mut records = records;
    if records.len() == 0 {
        None
    } else {
        let header = records.swap_remove(0);
        Some((header, records))
    }
}

/// Reads a CSV upload into its header and rows (see `split_header`); data
/// that is not CSV is an internal error.
pub fn read_csv_upload(data: &[u8]) -> (r: Result<Option<(Vec<String>, Vec<Vec<String>>)>, Error>)
    ensures
        match csv_rows(data@) {
            None => r matches Err(e) && e is Internal,
            Some(rs) => r matches Ok(o) && (rs.len() == 0 <==> o is None) && (o matches Some((h, rows))
                ==> h@.map_values(|f: String| f@) == rs[0] && records_view(rows@) == rs.update(
                0,
                rs.last(),
            ).drop_last()),
        },
{
    match read_csv_records(data) {
        None => Err(Error::Internal),
        Some(records) => {
            let ghost rv = records@;
            let r = split_header(records);
            proof {
                if r is Some {
                    let pair = r->0;
                    let rows = pair.1;
                    assert(records_view(rows@) =~= records_view(rv).update(0, records_view(rv).last()).drop_last());
                }
            }
            Ok(r)
        },
    }
}

/// An Excel upload is read from its first worksheet; a workbook without one
/// is a bad request.
pub fn require_first_worksheet<T>(first: Option<T>) -> (r: Result<T, Error>)
    ensures
        match first {
            Some(w) => r == Ok::<T, Error>(w),
            None => r matches Err(Error::BadRequestVerbose(m))
                && m@ == "Please provide an excel file with at least 1 worksheet"@,
        },
{
    match first {
        Some(w) => Ok(w),
        None => Err(Error::BadRequestVerbose(
            String::from_str("Please provide an excel file with at least 1 worksheet"),
        )),
    }
}

/// Subject of the invitation mail.
pub const INVITATION_SUBJECT: &'static str = "Invitation to Globelise";

/// Text of the invitation mail before the frontend's address.
pub open spec fn invitation_head() -> Seq<char> {
    "\n        <!DOCTYPE html>\n        <html>\n        <head>\n            <title>Globelise Invitation</title>\n        </head>\n        <body>\n            <p>\n           Click the <a href=\""@
}

/// Text of the invitation mail after the frontend's address.
pub open spec fn invitation_tail() -> Seq<char> {
    "/signup?as=contractor&type=individual\">link</a> to sign up as a Globelise individual contractor.\n            </p>\n            <p>If you did not expect to receive this email. Please ignore!</p>\n        </body>\n        </html>\n        "@
}

/// The HTML body of the invitation sent to a contractor added in bulk: a
/// link to the frontend's sign-up page for individual contractors.
pub fn invitation_email_body(frontend_url: &str) -> (body: String)
    ensures
        body@ == invitation_head() + frontend_url@ + invitation_tail(),
{
    let mut body = String::from_str("\n        <!DOCTYPE html>\n        <html>\n        <head>\n            <title>Globelise Invitation</title>\n        </head>\n        <body>\n            <p>\n           Click the <a href=\"");
    body.append(frontend_url);
    body.append("/signup?as=contractor&type=individual\">link</a> to sign up as a Globelise individual contractor.\n            </p>\n            <p>If you did not expect to receive this email. Please ignore!</p>\n        </body>\n        </html>\n        ");
    body
}

/// Where a row stands.
#[derive(Debug, Clone, Copy, PartialEq, Eq, Structural)]
pub enum BulkRowStep {
    Start,
    LookingUpUser,
    CreatingUser,
    CheckingAccountDetails,
    InsertingAccountDetails,
    CheckingBankDetails,
    InsertingBankDetails,
    LinkingToClient,
    Inviting,
    Finished,
}

/// What the caller must do next for a row.
#[derive(Debug, Clone, Copy, PartialEq, Eq, Structural)]
pub enum BulkRowAction {
    /// Look the row's email up among the users.
    FindUser,
    /// Store a new individual contractor with the default password.
    CreateUser,
    /// Look up the user's onboarding account details.
    FindAccountDetails(u128),
    /// Store the row's account details for the user.
    InsertAccountDetails(u128),
    /// Look up the user's bank details.
    FindBankDetails(u128),
    /// Store the row's bank details for the user.
    InsertBankDetails(u128),
    /// Pair the contractor (second) with the client (first).
    LinkToClient(u128, u128),
    /// Mail the invitation to the row's email.
    SendInvitation,
    /// Nothing more to do.
    Finish,
}

/// What the caller observed after an action.
#[derive(Debug, Clone, Copy, PartialEq, Eq, Structural)]
pub enum BulkRowEvent {
    /// The row is taken up.
    Begin,
    /// A user with the row's email exists.
    UserFound(u128),
    /// No user has the row's email.
    UserMissing,
    /// The new user was stored with this id.
    UserCreated(u128),
    /// Whether the looked-up details exist.
    DetailsPresent(bool),
    /// The action completed.
    Done,
}

/// The progress of one row.
#[derive(Debug, Clone, Copy, PartialEq, Eq, Structural)]
pub struct BulkRowProgress {
    pub step: BulkRowStep,
    pub client_ulid: u128,
    pub user_ulid: u128,
    pub created: bool,
    pub debug: bool,
}

/// The next progress and action of a row after an event, or `None` where
/// the event does not answer the row's last action.
pub open spec fn spec_next(p: BulkRowProgress, e: BulkRowEvent) -> Option<(BulkRowProgress, BulkRowAction)> {
    match (p.step, e) {
        (BulkRowStep::Start, BulkRowEvent::Begin) => Some(
            (BulkRowProgress { step: BulkRowStep::LookingUpUser, ..p }, BulkRowAction::FindUser),
        ),
        (BulkRowStep::LookingUpUser, BulkRowEvent::UserFound(u)) => Some(
            (
                BulkRowProgress { step: BulkRowStep::CheckingAccountDetails, user_ulid: u, created: false, ..p },
                BulkRowAction::FindAccountDetails(u),
            ),
        ),
        (BulkRowStep::LookingUpUser, BulkRowEvent::UserMissing) => Some(
            (BulkRowProgress { step: BulkRowStep::CreatingUser, ..p }, BulkRowAction::CreateUser),
        ),
        (BulkRowStep::CreatingUser, BulkRowEvent::UserCreated(u)) => Some(
            (
                BulkRowProgress { step: BulkRowStep::CheckingAccountDetails, user_ulid: u, created: true, ..p },
                BulkRowAction::FindAccountDetails(u),
            ),
        ),
        (BulkRowStep::CheckingAccountDetails, BulkRowEvent::DetailsPresent(true))
        | (BulkRowStep::InsertingAccountDetails, BulkRowEvent::Done) => Some(
            (
                BulkRowProgress { step: BulkRowStep::CheckingBankDetails, ..p },
                BulkRowAction::FindBankDetails(p.user_ulid),
            ),
        ),
        (BulkRowStep::CheckingAccountDetails, BulkRowEvent::DetailsPresent(false)) => Some(
            (
                BulkRowProgress { step: BulkRowStep::InsertingAccountDetails, ..p },
                BulkRowAction::InsertAccountDetails(p.user_ulid),
            ),
        ),
        (BulkRowStep::CheckingBankDetails, BulkRowEvent::DetailsPresent(true))
        | (BulkRowStep::InsertingBankDetails, BulkRowEvent::Done) => Some(
            (
                BulkRowProgress { step: BulkRowStep::LinkingToClient, ..p },
                BulkRowAction::LinkToClient(p.client_ulid, p.user_ulid),
            ),
        ),
        (BulkRowStep::CheckingBankDetails, BulkRowEvent::DetailsPresent(false)) => Some(
            (
                BulkRowProgress { step: BulkRowStep::InsertingBankDetails, ..p },
                BulkRowAction::InsertBankDetails(p.user_ulid),
            ),
        ),
        (BulkRowStep::LinkingToClient, BulkRowEvent::Done) => if p.created && !p.debug {
            Some((BulkRowProgress { step: BulkRowStep::Inviting, ..p }, BulkRowAction::SendInvitation))
        } else {
            Some((BulkRowProgress { step: BulkRowStep::Finished, ..p }, BulkRowAction::Finish))
        },
        (BulkRowStep::Inviting, BulkRowEvent::Done) => Some(
            (BulkRowProgress { step: BulkRowStep::Finished, ..p }, BulkRowAction::Finish),
        ),
        _ => None,
    }
}

/// The progress that follows an event, where the event answers the row's
/// last action.
pub open spec fn next_progress(p: BulkRowProgress, e: BulkRowEvent) -> BulkRowProgress {
    spec_next(p, e).unwrap().0
}

impl BulkRowProgress {
    /// A row not yet taken up, for a client, in debug mode or not.
    pub fn new(client_ulid: u128, debug: bool) -> (p: BulkRowProgress)
        ensures
            p.step == BulkRowStep::Start,
            p.client_ulid == client_ulid,
            p.debug == debug,
            !p.created,
    {
        BulkRowProgress { step: BulkRowStep::Start, client_ulid, user_ulid: 0, created: false, debug }
    }

    /// Advances a row by an event; an event that does not answer the row's
    /// last action is an internal error.
    pub fn next(self, e: BulkRowEvent) -> (r: Result<(BulkRowProgress, BulkRowAction), Error>)
        ensures
            match spec_next(self, e) {
                Some(x) => r == Ok::<(BulkRowProgress, BulkRowAction), Error>(x),
                None => r matches Err(e) && e is Internal,
            },
    {
        let p = self;
        match (p.step, e) {
            (BulkRowStep::Start, BulkRowEvent::Begin) => Ok(
                (BulkRowProgress { step: BulkRowStep::LookingUpUser, ..p }, BulkRowAction::FindUser),
            ),
            (BulkRowStep::LookingUpUser, BulkRowEvent::UserFound(u)) => Ok(
                (
                    BulkRowProgress { step: BulkRowStep::CheckingAccountDetails, user_ulid: u, created: false, ..p },
                    BulkRowAction::FindAccountDetails(u),
                ),
            ),
            (BulkRowStep::LookingUpUser, BulkRowEvent::UserMissing) => Ok(
                (BulkRowProgress { step: BulkRowStep::CreatingUser, ..p }, BulkRowAction::CreateUser),
            ),
            (BulkRowStep::CreatingUser, BulkRowEvent::UserCreated(u)) => Ok(
                (
                    BulkRowProgress { step: BulkRowStep::CheckingAccountDetails, user_ulid: u, created: true, ..p },
                    BulkRowAction::FindAccountDetails(u),
                ),
            ),
            (BulkRowStep::CheckingAccountDetails, BulkRowEvent::DetailsPresent(true))
            | (BulkRowStep::InsertingAccountDetails, BulkRowEvent::Done) => Ok(
                (
                    BulkRowProgress { step: BulkRowStep::CheckingBankDetails, ..p },
                    BulkRowAction::FindBankDetails(p.user_ulid),
                ),
            ),
            (BulkRowStep::CheckingAccountDetails, BulkRowEvent::DetailsPresent(false)) => Ok(
                (
                    BulkRowProgress { step: BulkRowStep::InsertingAccountDetails, ..p },
                    BulkRowAction::InsertAccountDetails(p.user_ulid),
                ),
            ),
            (BulkRowStep::CheckingBankDetails, BulkRowEvent::DetailsPresent(true))
            | (BulkRowStep::InsertingBankDetails, BulkRowEvent::Done) => Ok(
                (
                    BulkRowProgress { step: BulkRowStep::LinkingToClient, ..p },
                    BulkRowAction::LinkToClient(p.client_ulid, p.user_ulid),
                ),
            ),
            (BulkRowStep::CheckingBankDetails, BulkRowEvent::DetailsPresent(false)) => Ok(
                (
                    BulkRowProgress { step: BulkRowStep::InsertingBankDetails, ..p },
                    BulkRowAction::InsertBankDetails(p.user_ulid),
                ),
            ),
            (BulkRowStep::LinkingToClient, BulkRowEvent::Done) => if p.created && !p.debug {
                Ok((BulkRowProgress { step: BulkRowStep::Inviting, ..p }, BulkRowAction::SendInvitation))
            } else {
                Ok((BulkRowProgress { step: BulkRowStep::Finished, ..p }, BulkRowAction::Finish))
            },
            (BulkRowStep::Inviting, BulkRowEvent::Done) => Ok(
                (BulkRowProgress { step: BulkRowStep::Finished, ..p }, BulkRowAction::Finish),
            ),
            _ => Err(Error::Internal),
        }
    }
}

/// An invitation is mailed only to a user created for this row, and never
/// in debug mode.
pub proof fn lemma_invitation_only_for_new_users(p: BulkRowProgress, e: BulkRowEvent)
    requires
        spec_next(p, e) matches Some((q, a)) && a == BulkRowAction::SendInvitation,
    ensures
        p.created && !p.debug,
        next_progress(p, e).created,
{
}

/// A row finishes only after its contractor was paired with the client (or
/// after the invitation that follows the pairing).
pub proof fn lemma_finish_after_link(p: BulkRowProgress, e: BulkRowEvent)
    requires
        spec_next(p, e) matches Some((q, a)) && a == BulkRowAction::Finish,
    ensures
        p.step == BulkRowStep::LinkingToClient || p.step == BulkRowStep::Inviting,
{
}

/// A row's client and debug mode never change, and once a user is chosen
/// it stays the row's user.
pub proof fn lemma_row_identity_kept(p: BulkRowProgress, e: BulkRowEvent)
    requires
        spec_next(p, e) is Some,
    ensures
        next_progress(p, e).client_ulid == p.client_ulid,
        next_progress(p, e).debug == p.debug,
        p.step != BulkRowStep::LookingUpUser && p.step != BulkRowStep::CreatingUser
            ==> next_progress(p, e).user_ulid == p.user_ulid && next_progress(p, e).created == p.created,
{
}

} // verus!

use user_management::bulk_add::{
    file_type, invitation_email_body, read_csv_upload, split_header, BulkRowAction, BulkRowEvent,
    BulkRowProgress, BulkRowStep, FileType, INVITATION_SUBJECT,
};
use user_management::error::Error;

fn strings(v: &[&str]) -> Vec<String> {
    v.iter().map(|s| s.to_string()).collect()
}

#[test]
fn file_types_by_extension() {
    assert_eq!(file_type("people.csv").unwrap(), FileType::Csv);
    for name in ["a.xls", "a.xlsx", "a.xlsb", "a.ods"] {
        assert_eq!(file_type(name).unwrap(), FileType::Excel);
    }
    for name in ["a.txt", "noext", "a.CSV"] {
        match file_type(name) {
            Err(Error::BadRequestVerbose(m)) => {
                assert_eq!(m, "Cannot determine the file type from the file name")
            }
            other => panic!("unexpected {:?} for {}", other, name),
        }
    }
}

#[test]
fn invitation_mail() {
    assert_eq!(INVITATION_SUBJECT, "Invitation to Globelise");
    let body = invitation_email_body("https://app.example.com");
    assert!(body.contains(
        "<a href=\"https://app.example.com/signup?as=contractor&type=individual\">link</a>"
    ));
    assert!(body.contains("<title>Globelise Invitation</title>"));
}

#[test]
fn header_split_moves_last_row_forward() {
    let records = vec![
        strings(&["h1", "h2"]),
        strings(&["a", "1"]),
        strings(&["b", "2"]),
        strings(&["c", "3"]),
    ];
    let (header, rows) = split_header(records).unwrap();
    assert_eq!(header, strings(&["h1", "h2"]));
    assert_eq!(rows, vec![strings(&["c", "3"]), strings(&["a", "1"]), strings(&["b", "2"])]);
    assert!(split_header(vec![]).is_none());
    let (h, rows) = split_header(vec![strings(&["only"])]).unwrap();
    assert_eq!(h, strings(&["only"]));
    assert!(rows.is_empty());
}

#[test]
fn csv_upload_is_read() {
    let data = b"First Name,Last Name\nAda,Lovelace\nAlan,Turing\n";
    let (header, rows) = read_csv_upload(data).unwrap().unwrap();
    assert_eq!(header, strings(&["First Name", "Last Name"]));
    assert_eq!(rows, vec![strings(&["Alan", "Turing"]), strings(&["Ada", "Lovelace"])]);
    assert!(read_csv_upload(b"").unwrap().is_none());
}

#[test]
fn csv_with_ragged_rows_is_refused() {
    assert!(matches!(read_csv_upload(b"a,b\n1,2,3\n"), Err(Error::Internal)));
}

fn step(p: BulkRowProgress, e: BulkRowEvent) -> (BulkRowProgress, BulkRowAction) {
    p.next(e).unwrap()
}

#[test]
fn new_user_row_gets_invitation() {
    let p = BulkRowProgress::new(5, false);
    let (p, a) = step(p, BulkRowEvent::Begin);
    assert_eq!(a, BulkRowAction::FindUser);
    let (p, a) = step(p, BulkRowEvent::UserMissing);
    assert_eq!(a, BulkRowAction::CreateUser);
    let (p, a) = step(p, BulkRowEvent::UserCreated(77));
    assert_eq!(a, BulkRowAction::FindAccountDetails(77));
    let (p, a) = step(p, BulkRowEvent::DetailsPresent(false));
    assert_eq!(a, BulkRowAction::InsertAccountDetails(77));
    let (p, a) = step(p, BulkRowEvent::Done);
    assert_eq!(a, BulkRowAction::FindBankDetails(77));
    let (p, a) = step(p, BulkRowEvent::DetailsPresent(false));
    assert_eq!(a, BulkRowAction::InsertBankDetails(77));
    let (p, a) = step(p, BulkRowEvent::Done);
    assert_eq!(a, BulkRowAction::LinkToClient(5, 77));
    let (p, a) = step(p, BulkRowEvent::Done);
    assert_eq!(a, BulkRowAction::SendInvitation);
    let (p, a) = step(p, BulkRowEvent::Done);
    assert_eq!(a, BulkRowAction::Finish);
    assert_eq!(p.step, BulkRowStep::Finished);
    assert!(matches!(p.next(BulkRowEvent::Done), Err(Error::Internal)));
}

#[test]
fn existing_user_row_is_not_invited() {
    let p = BulkRowProgress::new(5, false);
    let (p, _) = step(p, BulkRowEvent::Begin);
    let (p, a) = step(p, BulkRowEvent::UserFound(8));
    assert_eq!(a, BulkRowAction::FindAccountDetails(8));
    let (p, a) = step(p, BulkRowEvent::DetailsPresent(true));
    assert_eq!(a, BulkRowAction::FindBankDetails(8));
    let (p, a) = step(p, BulkRowEvent::DetailsPresent(true));
    assert_eq!(a, BulkRowAction::LinkToClient(5, 8));
    let (p, a) = step(p, BulkRowEvent::Done);
    assert_eq!(a, BulkRowAction::Finish);
    assert_eq!(p.step, BulkRowStep::Finished);
    assert!(!p.created);
}

#[test]
fn debug_row_is_not_invited() {
    let p = BulkRowProgress::new(1, true);
    let (p, _) = step(p, BulkRowEvent::Begin);
    let (p, _) = step(p, BulkRowEvent::UserMissing);
    let (p, _) = step(p, BulkRowEvent::UserCreated(2));
    let (p, _) = step(p, BulkRowEvent::DetailsPresent(true));
    let (p, _) = step(p, BulkRowEvent::DetailsPresent(true));
    let (p, a) = step(p, BulkRowEvent::Done);
    assert_eq!(a, BulkRowAction::Finish);
    assert!(p.created && p.debug);
}

#[test]
fn unexpected_event_is_internal_error() {
    let p = BulkRowProgress::new(1, false);
    assert!(matches!(p.next(BulkRowEvent::Done), Err(Error::Internal)));
    let (p, _) = step(p, BulkRowEvent::Begin);
    assert!(matches!(p.next(BulkRowEvent::UserCreated(3)), Err(Error::Internal)));
}

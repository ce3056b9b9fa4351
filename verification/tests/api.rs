use speculare_server::api::{
    get_user_session, identified, Paged, PagedInfo, PagedInfoSpecific,
    SpecificPaged,
};
use speculare_server::errors::AppErrorType;

const USER: &str = "550e8400-e29b-41d4-a716-446655440000";

fn specific(size: Option<i64>, page: Option<i64>) -> PagedInfoSpecific {
    PagedInfoSpecific { uuid: "h".to_string(), size, page, min_date: None, max_date: None }
}

#[test]
fn paged_defaults() {
    let p = Paged { size: None, page: None };
    assert_eq!(p.get_size_page().unwrap(), (100, 0));
}

#[test]
fn paged_bounds() {
    assert_eq!(Paged { size: Some(1), page: Some(3) }.get_size_page().unwrap(), (1, 3));
    assert_eq!(Paged { size: Some(4999), page: Some(0) }.get_size_page().unwrap(), (4999, 0));
    for (size, page) in [(0, 0), (5000, 0), (-1, 0), (10, -1)] {
        let e = Paged { size: Some(size), page: Some(page) }.get_size_page().unwrap_err();
        assert_eq!(e.error_type, AppErrorType::InvalidRequest);
        assert_eq!(e.message(), "Size must be > 0 && < 5000 and Page must be >= 0");
        assert_eq!(e.status_code(), 400);
    }
}

#[test]
fn specific_paged_size_page_and_size() {
    let p = SpecificPaged { uuid: "h".to_string(), size: Some(20), page: None };
    assert_eq!(p.get_size_page().unwrap(), (20, 0));
    assert_eq!(p.get_size().unwrap(), 20);
    let q = SpecificPaged { uuid: "h".to_string(), size: None, page: Some(-2) };
    assert!(q.get_size_page().is_err());
    assert_eq!(q.get_size().unwrap(), 100);
    let r = SpecificPaged { uuid: "h".to_string(), size: Some(5000), page: None };
    assert_eq!(r.get_size().unwrap_err().message(), "Size must be > 0");
}

#[test]
fn iostats_bounds() {
    assert_eq!(specific(Some(30), Some(2)).iostats_size_page().unwrap(), (30, 2));
    assert_eq!(specific(Some(5000), None).iostats_size_page().unwrap(), (5000, 0));
    assert_eq!(specific(None, None).iostats_size_page().unwrap(), (100, 0));
    let e = specific(Some(29), None).iostats_size_page().unwrap_err();
    assert_eq!(e.message(), "The size parameters must be 30 < size <= 5000");
    assert!(specific(Some(5001), None).iostats_size_page().is_err());
}

#[test]
fn iostats_count_bounds() {
    assert_eq!(specific(Some(500), None).iostats_count_size().unwrap(), 500);
    let e = specific(Some(501), None).iostats_count_size().unwrap_err();
    assert_eq!(e.message(), "The size parameters must be 30 < size <= 500");
}

#[test]
fn host_list_bounds() {
    assert_eq!(PagedInfo { size: Some(30), page: Some(1) }.host_list_size_page().unwrap(), (30, 1));
    let e = PagedInfo { size: Some(600), page: None }.host_list_size_page().unwrap_err();
    assert_eq!(e.message(), "The size parameters must be 30 < size < 500");
    let e = PagedInfo { size: Some(10), page: None }.data_list_size_page().unwrap_err();
    assert_eq!(e.message(), "The size parameters can't be bigger than 500 and lesser than 30");
}

#[test]
fn identity_required() {
    assert_eq!(identified(Some("marvin".to_string())).unwrap(), "marvin");
    let e = identified(None).unwrap_err();
    assert_eq!(e.message(), "You're not allowed to access this resource");
    assert_eq!(e.error_type, AppErrorType::InvalidRequest);
}

#[test]
fn user_session() {
    let u = get_user_session(Some(USER.to_string())).unwrap();
    assert_eq!(u, 0x550e8400e29b41d4a716446655440000u128);
    let e = get_user_session(None).unwrap_err();
    assert_eq!(e.error_type, AppErrorType::InvalidToken);
    assert_eq!(e.message(), "Missing user_id in the session");
    assert_eq!(e.status_code(), 401);
}

#[test]
fn malformed_session_user_is_an_invalid_token() {
    let e = get_user_session(Some("not-a-uuid".to_string())).unwrap_err();
    assert_eq!(e.error_type, AppErrorType::InvalidToken);
    assert_eq!(e.message(), "Missing user_id in the session");
}

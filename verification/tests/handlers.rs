use nfe_repository::errors::{RepositoryError, StoreFailure, TemporalColumn};
use nfe_repository::handlers::{
    create_identification, default_page, default_page_size, delete_identification,
    get_identification, list_identifications, refuse_list_query, status_of, total_pages,
    update_identification, Body, ErrorResponse, ListQuery, PaginationQuery, PaginationResponse,
    Response, PAGE_BOUNDS_MESSAGE,
};
use nfe_repository::mapper::row_to_record;
use nfe_repository::models::{NFeIdentification, StoredRow};

fn record(n_nf: &str) -> NFeIdentification {
    let row = StoredRow {
        internal_key: "67E5504410B1426F9247BB680E5FE0C8".to_string(),
        c_uf: "35".to_string(),
        c_nf: "1".to_string(),
        nat_op: "VENDA".to_string(),
        mod_: "55".to_string(),
        serie: "1".to_string(),
        n_nf: n_nf.to_string(),
        dh_emi: "2024-01-01 13:00:00.000".to_string(),
        dh_sai_ent: None,
        dh_cont: None,
        tp_nf: "1".to_string(),
        id_dest: "1".to_string(),
        c_mun_fg: "3550308".to_string(),
        tp_imp: "1".to_string(),
        tp_emis: "1".to_string(),
        c_dv: "0".to_string(),
        tp_amb: "2".to_string(),
        fin_nfe: "1".to_string(),
        ind_final: "0".to_string(),
        ind_pres: "1".to_string(),
        proc_emi: "0".to_string(),
        ver_proc: "1.0".to_string(),
        created_at: "2024-01-01 13:00:01.000".to_string(),
        updated_at: "2024-01-01 13:00:01.000".to_string(),
    };
    row_to_record(&row).unwrap()
}

fn query(page: u32, page_size: u32) -> ListQuery {
    ListQuery { page, page_size, nat_op: None, n_nf: None, tp_nf: None, dh_emi: None, search: None }
}

fn failure<T>(status: u16, message: &str) -> Response<T> {
    Response { status, body: Body::Failure(ErrorResponse { error: message.to_string() }) }
}

fn store_failure() -> RepositoryError {
    RepositoryError::BackingStoreError(StoreFailure {
        code: 942,
        message: "ORA-00942: table or view does not exist".to_string(),
    })
}

#[test]
fn a_listing_request_defaults_to_the_first_page_of_fifty() {
    assert_eq!(default_page(), 1);
    assert_eq!(default_page_size(), 50);
    let named = PaginationQuery { page: default_page(), page_size: default_page_size() };
    assert_eq!(named, PaginationQuery { page: 1, page_size: 50 });
}

#[test]
fn a_listing_request_without_a_page_or_a_size_is_the_callers_fault() {
    for (page, page_size) in [(0, 10), (1, 0), (0, 0), (0, u32::MAX), (u32::MAX, 0)] {
        assert_eq!(
            refuse_list_query(&query(page, page_size)),
            Some(failure(400, "page and page_size must be at least 1")),
            "page {page}, size {page_size}"
        );
    }
    assert_eq!(PAGE_BOUNDS_MESSAGE, "page and page_size must be at least 1");
}

#[test]
fn a_listing_request_from_page_one_with_a_size_goes_on() {
    for (page, page_size) in [(1, 1), (1, 50), (7, 3), (u32::MAX, u32::MAX)] {
        assert_eq!(refuse_list_query(&query(page, page_size)), None);
    }
}

#[test]
fn total_pages_rounds_up() {
    assert_eq!(total_pages(101, 50), 3);
    assert_eq!(total_pages(100, 50), 2);
    assert_eq!(total_pages(99, 50), 2);
    assert_eq!(total_pages(1, 50), 1);
    assert_eq!(total_pages(0, 50), 0);
    assert_eq!(total_pages(7, 1), 7);
    assert_eq!(total_pages(u32::MAX as u64 * 2, 2), u32::MAX);
    assert_eq!(total_pages(4_294_967_294, 4_294_967_295), 1);
}

#[test]
fn total_pages_stops_at_the_largest_number_the_field_holds() {
    assert_eq!(total_pages(u64::MAX, 1), u32::MAX);
    assert_eq!(total_pages(1 << 33, 1), u32::MAX);
    assert_eq!(total_pages(u32::MAX as u64, 1), u32::MAX);
    assert_eq!(total_pages(u32::MAX as u64 - 1, 1), u32::MAX - 1);
    assert_eq!(total_pages((1 << 33) + 1, 2), u32::MAX);
    assert_eq!(total_pages(u64::MAX, u32::MAX), u32::MAX);
    assert_eq!(total_pages(u64::MAX - 1, 1 << 31), u32::MAX);
}

#[test]
fn a_page_is_answered_with_its_place_among_the_pages() {
    let records = vec![record("1"), record("2")];
    let answer = list_identifications(&query(2, 50), Ok((records.clone(), 101)));
    assert_eq!(
        answer,
        Response {
            status: 200,
            body: Body::Data(PaginationResponse {
                data: records,
                total: 101,
                current_page: 2,
                page_size: 50,
                total_pages: 3,
            }),
        }
    );
}

#[test]
fn a_failed_listing_is_answered_in_the_words_of_the_repository() {
    let answer = list_identifications(&query(1, 10), Err(store_failure()));
    assert_eq!(answer, failure(500, "Oracle error: ORA-00942: table or view does not exist"));
}

#[test]
fn a_record_is_answered_as_it_is() {
    assert_eq!(
        get_identification(Ok(Some(record("123")))),
        Response { status: 200, body: Body::Data(record("123")) }
    );
}

#[test]
fn a_missing_record_is_not_found() {
    assert_eq!(get_identification(Ok(None)), failure(404, "Identification not found"));
}

#[test]
fn failures_are_answered_by_their_kind() {
    assert_eq!(get_identification(Err(store_failure())), failure(500, "Failed to get identification"));
    assert_eq!(
        get_identification(Err(RepositoryError::InvalidIdentifier("abc".to_string()))),
        failure(400, "Failed to get identification")
    );
    assert_eq!(
        update_identification(Err(RepositoryError::UpdateFailed)),
        failure(500, "Failed to update identification")
    );
    assert_eq!(
        update_identification(Err(RepositoryError::InvalidIdentifier("abc".to_string()))),
        failure(400, "Failed to update identification")
    );
    assert_eq!(
        create_identification(Err(RepositoryError::CreationFailed)),
        failure(500, "Failed to create identification")
    );
    assert_eq!(
        delete_identification(Err(RepositoryError::NotFound)),
        failure(404, "Failed to delete identification")
    );
    assert_eq!(
        delete_identification(Err(store_failure())),
        failure(500, "Failed to delete identification")
    );
}

#[test]
fn writes_that_succeed_are_answered_with_their_status() {
    assert_eq!(
        create_identification(Ok(record("123"))),
        Response { status: 201, body: Body::Data(record("123")) }
    );
    assert_eq!(
        update_identification(Ok(record("123"))),
        Response { status: 200, body: Body::Data(record("123")) }
    );
    assert_eq!(delete_identification(Ok(())), Response { status: 204, body: Body::Empty });
}

#[test]
fn every_kind_of_failure_has_a_status() {
    assert_eq!(status_of(&store_failure()), 500);
    assert_eq!(status_of(&RepositoryError::NotFound), 404);
    assert_eq!(status_of(&RepositoryError::CreationFailed), 500);
    assert_eq!(status_of(&RepositoryError::UpdateFailed), 500);
    assert_eq!(status_of(&RepositoryError::InvalidIdentifier(String::new())), 400);
    assert_eq!(
        status_of(&RepositoryError::ParseError(TemporalColumn::DhEmi, "x".to_string())),
        500
    );
}

#[test]
fn every_kind_of_failure_has_a_message() {
    assert_eq!(
        store_failure().message(),
        "Oracle error: ORA-00942: table or view does not exist"
    );
    assert_eq!(RepositoryError::NotFound.message(), "Record not found");
    assert_eq!(RepositoryError::CreationFailed.message(), "Failed to create record");
    assert_eq!(RepositoryError::UpdateFailed.message(), "Failed to update record");
    assert_eq!(
        RepositoryError::InvalidIdentifier("abc".to_string()).message(),
        "Invalid UUID: abc"
    );
    assert_eq!(
        RepositoryError::ParseError(TemporalColumn::DhSaiEnt, "soon".to_string()).message(),
        "Unreadable dh_sai_ent: soon"
    );
    assert_eq!(
        RepositoryError::from_store(StoreFailure { code: 1, message: "m".to_string() }),
        RepositoryError::BackingStoreError(StoreFailure { code: 1, message: "m".to_string() })
    );
    assert_eq!(TemporalColumn::CreatedAt.name(), "created_at");
    assert_eq!(TemporalColumn::UpdatedAt.name(), "updated_at");
    assert_eq!(TemporalColumn::DhCont.name(), "dh_cont");
    assert_eq!(TemporalColumn::DhEmi.name(), "dh_emi");
}

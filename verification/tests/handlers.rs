use cats_api::handlers::get_cat;
use cats_api::handlers::get_cat_precheck;
use cats_api::handlers::get_cat_respond;
use cats_api::handlers::get_cats;
use cats_api::handlers::get_cats_respond;
use cats_api::handlers::CatRequestStep;
use cats_api::handlers::Config;
use cats_api::models::Cat;
use cats_api::store::AccessError;
use cats_api::validate::validate_cat_id;

fn cat(id: i32, name: &str) -> Cat {
    Cat { id, name: String::from(name) }
}

fn validating() -> Config {
    Config { validate_id_range: true, enable_access_logging: true }
}

fn plain() -> Config {
    Config { validate_id_range: false, enable_access_logging: false }
}

#[test]
fn validator_rejects_out_of_range_ids() {
    assert!(!validate_cat_id(0));
    assert!(!validate_cat_id(151));
    assert!(!validate_cat_id(-5));
}

#[test]
fn validator_accepts_range_bounds() {
    assert!(validate_cat_id(1));
    assert!(validate_cat_id(150));
}

#[test]
fn scenario_two_cats() {
    let table = vec![cat(1, "Tom"), cat(2, "Felix")];

    let list = get_cats(&table);
    assert_eq!(list.status, 200);
    assert_eq!(list.body, "[{\"id\":1,\"name\":\"Tom\"},{\"id\":2,\"name\":\"Felix\"}]");

    let one = get_cat(&plain(), &table, 1);
    assert_eq!(one.status, 200);
    assert_eq!(one.body, "{\"id\":1,\"name\":\"Tom\"}");

    let missing = get_cat(&plain(), &table, 99);
    assert_eq!(missing.status, 500);
    assert_eq!(missing.body, "");
}

#[test]
fn empty_table_lists_ok() {
    let table: Vec<Cat> = Vec::new();
    let list = get_cats(&table);
    assert_eq!(list.status, 200);
    assert_eq!(list.body, "[]");
}

#[test]
fn validating_variant_rejects_out_of_range_requests() {
    let table = vec![cat(1, "Tom")];
    for id in [0, 151, -5] {
        let r = get_cat(&validating(), &table, id);
        assert_eq!(r.status, 400);
        assert_eq!(r.body, "");
    }
}

#[test]
fn validating_variant_accepts_range_bounds() {
    let table: Vec<Cat> = Vec::new();
    // Both bounds pass validation; the outcome is then decided by the
    // lookup alone (500 here, the table being empty).
    for id in [1, 150] {
        let r = get_cat(&validating(), &table, id);
        assert_eq!(r.status, 500);
    }
}

#[test]
fn plain_variant_queries_any_id() {
    assert!(matches!(get_cat_precheck(&plain(), -5), CatRequestStep::Query(-5)));
    assert!(matches!(get_cat_precheck(&plain(), 99999), CatRequestStep::Query(99999)));
}

#[test]
fn precheck_rejects_only_with_validation_enabled() {
    match get_cat_precheck(&validating(), 151) {
        CatRequestStep::Reject(resp) => {
            assert_eq!(resp.status, 400);
            assert_eq!(resp.body, "");
        },
        CatRequestStep::Query(_) => panic!("id 151 must be rejected"),
    }
    assert!(matches!(get_cat_precheck(&validating(), 150), CatRequestStep::Query(150)));
}

#[test]
fn pool_failure_answers_server_error() {
    let r = get_cats_respond(Err(AccessError::PoolExhaustedOrUnavailable));
    assert_eq!(r.status, 500);
    assert_eq!(r.body, "");

    let r = get_cat_respond(Err(AccessError::PoolExhaustedOrUnavailable));
    assert_eq!(r.status, 500);
    assert_eq!(r.body, "");
}

#[test]
fn query_failure_answers_server_error() {
    let r = get_cats_respond(Err(AccessError::QueryError));
    assert_eq!(r.status, 500);
    assert_eq!(r.body, "");
}

#[test]
fn not_found_answers_server_error() {
    let r = get_cat_respond(Err(AccessError::NotFound));
    assert_eq!(r.status, 500);
    assert_eq!(r.body, "");
}

#[test]
fn successful_outcomes_answer_ok() {
    let r = get_cat_respond(Ok(cat(3, "Momo")));
    assert_eq!(r.status, 200);
    assert_eq!(r.body, "{\"id\":3,\"name\":\"Momo\"}");

    let r = get_cats_respond(Ok(vec![cat(3, "Momo")]));
    assert_eq!(r.status, 200);
    assert_eq!(r.body, "[{\"id\":3,\"name\":\"Momo\"}]");
}

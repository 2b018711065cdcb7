use cats_api::models::Cat;
use cats_api::store::get_cat_by_id;
use cats_api::store::list_cats;
use cats_api::store::AccessError;
use cats_api::store::LIST_LIMIT;

fn cat(id: i32, name: &str) -> Cat {
    Cat { id, name: String::from(name) }
}

#[test]
fn lookup_finds_present_id() {
    let table = vec![cat(1, "Tom"), cat(2, "Felix")];
    let found = get_cat_by_id(&table, 2).unwrap();
    assert_eq!(found.id, 2);
    assert_eq!(found.name, "Felix");
}

#[test]
fn lookup_reports_absent_id_as_not_found() {
    let table = vec![cat(1, "Tom"), cat(2, "Felix")];
    assert!(matches!(get_cat_by_id(&table, 99), Err(AccessError::NotFound)));
}

#[test]
fn lookup_on_empty_table_is_not_found() {
    let table: Vec<Cat> = Vec::new();
    assert!(matches!(get_cat_by_id(&table, 1), Err(AccessError::NotFound)));
}

#[test]
fn list_of_empty_table_is_empty() {
    let table: Vec<Cat> = Vec::new();
    assert!(list_cats(&table).is_empty());
}

#[test]
fn list_keeps_order_of_small_table() {
    let table = vec![cat(1, "Tom"), cat(2, "Felix")];
    let rows = list_cats(&table);
    assert_eq!(rows.len(), 2);
    assert_eq!(rows[0].id, 1);
    assert_eq!(rows[1].id, 2);
}

#[test]
fn list_caps_a_table_of_150_at_100() {
    let mut table: Vec<Cat> = Vec::new();
    for i in 0..150 {
        table.push(cat(i + 1, "cat"));
    }
    let rows = list_cats(&table);
    assert_eq!(rows.len(), LIST_LIMIT);
    assert_eq!(rows.len(), 100);
    assert_eq!(rows[0].id, 1);
    assert_eq!(rows[99].id, 100);
}

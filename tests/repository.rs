use eucarinogammarus::columns::{Column, SortDirection};
use eucarinogammarus::record::{Eucarinogammarus, NewRecord};
use eucarinogammarus::repository::{load_records, load_records_sorted, RepoError, Repository};

fn values(items: &[&str]) -> Vec<String> {
    items.iter().map(|s| s.to_string()).collect()
}

fn repo_with_genera(genera: &[&str]) -> Repository {
    let mut repo = Repository::new();
    for g in genera {
        repo.insert(&values(&["", g])).unwrap();
    }
    repo
}

fn genera(records: &[Eucarinogammarus]) -> Vec<String> {
    records.iter().map(|r| r.genus.clone()).collect()
}

fn ids(records: &[Eucarinogammarus]) -> Vec<i32> {
    records.iter().map(|r| r.id).collect()
}

#[test]
fn insert_then_load_round_trip() {
    let mut repo = Repository::new();
    let form = NewRecord {
        code: "E1".to_string(),
        genus: "Eucarinogammarus".to_string(),
        species: "wagii".to_string(),
        size_mm: "20-25".to_string(),
        body: "smooth".to_string(),
    };
    let id = repo.insert(&form.to_values()).unwrap();
    assert_eq!(id, 1);
    let all = load_records(&repo);
    let found: Vec<&Eucarinogammarus> = all.iter().filter(|r| r.id == id).collect();
    assert_eq!(found.len(), 1);
    let r = found[0];
    assert_eq!(r.code, "E1");
    assert_eq!(r.genus, "Eucarinogammarus");
    assert_eq!(r.species, "wagii");
    assert_eq!(r.size_mm, "20-25");
    assert_eq!(r.body, "smooth");
    assert_eq!(r.coloration, "");
    assert_eq!(r.telson, "");
    assert_eq!(r.attribute(Column::Eyes), "");
}

#[test]
fn insert_assigns_increasing_ids() {
    let mut repo = Repository::new();
    assert_eq!(repo.insert(&values(&["a"])), Ok(1));
    assert_eq!(repo.insert(&values(&["b"])), Ok(2));
    assert_eq!(repo.insert(&values(&["c"])), Ok(3));
    assert_eq!(repo.delete(2), Ok(()));
    assert_eq!(repo.insert(&values(&["d"])), Ok(4));
    assert_eq!(repo.delete(4), Ok(()));
    // one past the largest identifier in use
    assert_eq!(repo.insert(&values(&["e"])), Ok(4));
    assert_eq!(ids(&repo.load_all()), vec![1, 3, 4]);
}

#[test]
fn insert_all_attributes_in_order() {
    let mut repo = Repository::new();
    let all: Vec<String> = (0..24).map(|i| format!("v{}", i)).collect();
    let id = repo.insert(&all).unwrap();
    let r = repo.find(id).unwrap();
    assert_eq!(r.values(), all);
    assert_eq!(r.code, "v0");
    assert_eq!(r.depth_m, "v7");
    assert_eq!(r.telson, "v23");
}

#[test]
fn insert_ignores_values_past_the_last_attribute() {
    let mut repo = Repository::new();
    let mut many: Vec<String> = (0..24).map(|i| format!("v{}", i)).collect();
    many.push("extra".to_string());
    let id = repo.insert(&many).unwrap();
    assert_eq!(repo.find(id).unwrap().telson, "v23");
}

#[test]
fn insert_refused_when_ids_run_out() {
    let mut rec = Repository::new();
    rec.insert(&values(&["x"])).unwrap();
    let mut row = rec.load_all().pop().unwrap();
    row.id = i32::MAX;
    let mut repo = Repository::from_rows(vec![row]).unwrap();
    assert_eq!(repo.insert(&values(&["y"])), Err(RepoError::IdSpaceExhausted));
    assert_eq!(repo.len(), 1);
}

#[test]
fn update_changes_one_attribute_of_one_record() {
    let mut repo = Repository::new();
    for i in 0..6 {
        repo.insert(&values(&[&format!("c{}", i), &format!("g{}", i), "s"])).unwrap();
    }
    let before = repo.load_all();
    assert_eq!(repo.update_field(5, "Род", "Pallasea".to_string()), Ok(()));
    let after = repo.load_all();
    assert_eq!(after.len(), before.len());
    for (b, a) in before.iter().zip(after.iter()) {
        assert_eq!(a.id, b.id);
        if b.id == 5 {
            assert_eq!(a.genus, "Pallasea");
            assert_eq!(a.code, b.code);
            assert_eq!(a.species, b.species);
            for k in 0..24 {
                let c = Column::from_index(k);
                if c != Column::Genus {
                    assert_eq!(a.attribute(c), b.attribute(c));
                }
            }
        } else {
            assert_eq!(a.values(), b.values());
        }
    }
}

#[test]
fn update_rejects_unknown_column() {
    let mut repo = repo_with_genera(&["A", "B"]);
    let before = repo.load_all();
    assert_eq!(
        repo.update_field(1, "id; DROP TABLE x", "z".to_string()),
        Err(RepoError::InvalidColumn)
    );
    assert_eq!(repo.update_field(1, "id", "7".to_string()), Err(RepoError::InvalidColumn));
    assert_eq!(repo.update_field(1, " Род", "z".to_string()), Err(RepoError::InvalidColumn));
    let after = repo.load_all();
    assert_eq!(ids(&after), ids(&before));
    assert_eq!(genera(&after), genera(&before));
}

#[test]
fn update_rejects_bad_or_missing_id() {
    let mut repo = repo_with_genera(&["A"]);
    assert_eq!(repo.update_field(0, "Род", "z".to_string()), Err(RepoError::InvalidId));
    assert_eq!(repo.update_field(-3, "Род", "z".to_string()), Err(RepoError::InvalidId));
    assert_eq!(repo.update_field(9, "Род", "z".to_string()), Err(RepoError::NotFound));
    assert_eq!(genera(&repo.load_all()), vec!["A"]);
}

#[test]
fn update_checks_column_before_id() {
    let mut repo = repo_with_genera(&["A"]);
    assert_eq!(repo.update_field(0, "bogus", "z".to_string()), Err(RepoError::InvalidColumn));
}

#[test]
fn delete_removes_exactly_one() {
    let mut repo = repo_with_genera(&["A", "B", "C"]);
    assert_eq!(repo.delete(2), Ok(()));
    let all = repo.load_all();
    assert_eq!(all.len(), 2);
    assert!(all.iter().all(|r| r.id != 2));
    assert_eq!(genera(&all), vec!["A", "C"]);
}

#[test]
fn delete_missing_id_reports_not_found() {
    let mut repo = repo_with_genera(&["A", "B"]);
    assert_eq!(repo.delete(7), Err(RepoError::NotFound));
    assert_eq!(repo.len(), 2);
    assert_eq!(repo.delete(0), Err(RepoError::InvalidId));
    assert_eq!(repo.len(), 2);
}

#[test]
fn sort_ascending_is_stable() {
    let repo = repo_with_genera(&["b", "a", "b", "", "a"]);
    let sorted = load_records_sorted(&repo, "Род", SortDirection::Ascending).unwrap();
    assert_eq!(genera(&sorted), vec!["", "a", "a", "b", "b"]);
    assert_eq!(ids(&sorted), vec![4, 2, 5, 1, 3]);
}

#[test]
fn sort_descending_is_stable() {
    let repo = repo_with_genera(&["b", "a", "b", "", "a"]);
    let sorted = load_records_sorted(&repo, "Род", SortDirection::Descending).unwrap();
    assert_eq!(genera(&sorted), vec!["b", "b", "a", "a", ""]);
    assert_eq!(ids(&sorted), vec![1, 3, 2, 5, 4]);
}

#[test]
fn sort_orders_by_code_point() {
    let repo = repo_with_genera(&["Род", "ab", "Ab", "a", "Яма", "Акация"]);
    let sorted = repo.load_sorted(Column::Genus, SortDirection::Ascending);
    assert_eq!(genera(&sorted), vec!["Ab", "a", "ab", "Акация", "Род", "Яма"]);
}

#[test]
fn sort_rejects_unknown_column() {
    let repo = repo_with_genera(&["A"]);
    assert!(matches!(
        load_records_sorted(&repo, "id; DROP TABLE x", SortDirection::Ascending),
        Err(RepoError::InvalidColumn)
    ));
    assert_eq!(repo.len(), 1);
}

#[test]
fn sort_of_empty_table_is_empty() {
    let repo = Repository::new();
    assert!(load_records_sorted(&repo, "Тельсон", SortDirection::Descending).unwrap().is_empty());
}

#[test]
fn from_rows_requires_increasing_positive_ids() {
    let base = repo_with_genera(&["A", "B"]).load_all();
    assert!(Repository::from_rows(base.clone()).is_ok());
    let mut swapped = base.clone();
    swapped.swap(0, 1);
    assert!(matches!(Repository::from_rows(swapped), Err(RepoError::UnorderedIds)));
    let mut zero = base.clone();
    zero[0].id = 0;
    assert!(matches!(Repository::from_rows(zero), Err(RepoError::UnorderedIds)));
    let mut dup = base;
    dup[1].id = dup[0].id;
    assert!(matches!(Repository::from_rows(dup), Err(RepoError::UnorderedIds)));
    assert!(Repository::from_rows(Vec::new()).unwrap().is_empty());
}

#[test]
fn find_and_position() {
    let repo = repo_with_genera(&["A", "B"]);
    assert_eq!(repo.find(2).unwrap().genus, "B");
    assert!(repo.find(3).is_none());
    assert_eq!(repo.position_of(1), Some(0));
    assert_eq!(repo.next_free_id(), 3);
}

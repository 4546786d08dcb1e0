use eucarinogammarus::repository::Repository;
use eucarinogammarus::seed::{import_csv, import_rows, seed_if_empty, SeedError};

const DATA: &str = "Код,Род,Вид\nE1,Eucarinogammarus,wagii,20\n\"E,2\",\"Quoted \"\"name\"\"\"\nE3\n";

#[test]
fn seeding_skips_header_and_pads_cells() {
    let mut repo = Repository::new();
    assert_eq!(seed_if_empty(&mut repo, DATA.as_bytes()).unwrap(), 3);
    let all = repo.load_all();
    assert_eq!(all.len(), 3);
    assert_eq!(all[0].id, 1);
    assert_eq!(all[0].code, "E1");
    assert_eq!(all[0].genus, "Eucarinogammarus");
    assert_eq!(all[0].species, "wagii");
    assert_eq!(all[0].size_mm, "20");
    assert_eq!(all[0].body, "");
    assert_eq!(all[1].code, "E,2");
    assert_eq!(all[1].genus, "Quoted \"name\"");
    assert_eq!(all[2].code, "E3");
    assert_eq!(all[2].genus, "");
    assert_eq!(all[2].id, 3);
}

#[test]
fn seeding_twice_adds_nothing() {
    let mut repo = Repository::new();
    seed_if_empty(&mut repo, DATA.as_bytes()).unwrap();
    let first = repo.load_all();
    assert_eq!(seed_if_empty(&mut repo, DATA.as_bytes()).unwrap(), 0);
    let second = repo.load_all();
    assert_eq!(second.len(), first.len());
    assert_eq!(
        second.iter().map(|r| r.id).collect::<Vec<_>>(),
        first.iter().map(|r| r.id).collect::<Vec<_>>()
    );
}

#[test]
fn seeding_header_only_leaves_table_empty() {
    let mut repo = Repository::new();
    assert_eq!(seed_if_empty(&mut repo, "Код,Род\n".as_bytes()).unwrap(), 0);
    assert!(repo.is_empty());
    assert_eq!(seed_if_empty(&mut repo, "".as_bytes()).unwrap(), 0);
    assert!(repo.is_empty());
}

#[test]
fn seeding_rejects_invalid_utf8() {
    let mut repo = Repository::new();
    let bad: Vec<u8> = vec![b'h', b'\n', 0xff, 0xfe, b'\n'];
    assert!(matches!(seed_if_empty(&mut repo, &bad), Err(SeedError::Malformed(_))));
    assert!(repo.is_empty());
}

#[test]
fn import_appends_after_existing_records() {
    let mut repo = Repository::new();
    repo.insert(&vec!["old".to_string()]).unwrap();
    assert_eq!(import_csv(&mut repo, DATA.as_bytes()).unwrap(), 3);
    let all = repo.load_all();
    assert_eq!(all.iter().map(|r| r.id).collect::<Vec<_>>(), vec![1, 2, 3, 4]);
    assert_eq!(all[1].code, "E1");
}

#[test]
fn import_rows_skips_first_row() {
    let mut repo = Repository::new();
    let rows = vec![
        vec!["h1".to_string(), "h2".to_string()],
        vec!["a".to_string(), "b".to_string()],
    ];
    assert_eq!(import_rows(&mut repo, &rows).unwrap(), 1);
    assert_eq!(repo.load_all()[0].genus, "b");
    assert_eq!(import_rows(&mut repo, &Vec::new()).unwrap(), 0);
    assert_eq!(repo.len(), 1);
}

#[test]
fn import_refused_when_ids_would_overflow() {
    let mut seed = Repository::new();
    seed.insert(&vec!["x".to_string()]).unwrap();
    let mut row = seed.load_all().pop().unwrap();
    row.id = i32::MAX - 1;
    let mut repo = Repository::from_rows(vec![row]).unwrap();
    let rows = vec![
        vec!["header".to_string()],
        vec!["a".to_string()],
        vec!["b".to_string()],
    ];
    assert!(matches!(import_rows(&mut repo, &rows), Err(SeedError::TooManyRecords)));
    assert_eq!(repo.len(), 1);
    let one = vec![vec!["header".to_string()], vec!["a".to_string()]];
    assert_eq!(import_rows(&mut repo, &one).unwrap(), 1);
    assert_eq!(repo.load_all()[1].id, i32::MAX);
}

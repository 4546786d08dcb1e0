use eucarinogammarus::columns::{Column, SortDirection};
use eucarinogammarus::session::Tab;
use eucarinogammarus::repository::Repository;
use eucarinogammarus::session::{EucarinogammarusApp, StoreChange};

fn browser(genera: &[&str]) -> EucarinogammarusApp {
    let mut repo = Repository::new();
    for g in genera {
        repo.insert(&vec![String::new(), g.to_string()]).unwrap();
    }
    EucarinogammarusApp::new(repo)
}

#[test]
fn new_browser_lists_everything() {
    let app = browser(&["A", "B"]);
    assert_eq!(app.records.len(), 2);
    assert_eq!(app.selected_tab, Tab::View);
    assert_eq!(app.status_message, "");
    assert_eq!(app.new_record.code, "");
    assert_eq!(app.new_record.body, "");
}

#[test]
fn add_record_inserts_form_and_clears_it() {
    let mut app = browser(&["A"]);
    app.new_record.code = "K7".to_string();
    app.new_record.genus = "Gammarus".to_string();
    app.new_record.body = "smooth".to_string();
    match app.add_record() {
        Some(StoreChange::Inserted(r)) => {
            assert_eq!(r.id, 2);
            assert_eq!(r.code, "K7");
            assert_eq!(r.genus, "Gammarus");
            assert_eq!(r.species, "");
            assert_eq!(r.body, "smooth");
            assert_eq!(r.telson, "");
        }
        other => panic!("unexpected {:?}", other),
    }
    assert_eq!(app.new_record.code, "");
    assert_eq!(app.new_record.genus, "");
    assert_eq!(app.records.len(), 2);
    assert_eq!(app.status_message, "Запись успешно добавлена");
}

#[test]
fn edit_record_updates_and_reports() {
    let mut app = browser(&["A", "B"]);
    app.edit_id = "2".to_string();
    app.edit_column = "Вид".to_string();
    app.edit_value = "wagii".to_string();
    match app.edit_record() {
        Some(StoreChange::Updated { id, column, value }) => {
            assert_eq!(id, 2);
            assert_eq!(column, Column::Species);
            assert_eq!(value, "wagii");
        }
        other => panic!("unexpected {:?}", other),
    }
    assert_eq!(app.records[1].species, "wagii");
    assert_eq!(app.records[0].species, "");
    assert_eq!(app.status_message, "Запись успешно обновлена");
}

#[test]
fn edit_record_rejections() {
    let mut app = browser(&["A"]);
    app.edit_id = "1".to_string();
    app.edit_column = "id; DROP TABLE x".to_string();
    app.edit_value = "z".to_string();
    assert!(app.edit_record().is_none());
    assert_eq!(app.status_message, "Неверное имя столбца");
    app.edit_column = "Род".to_string();
    app.edit_id = "abc".to_string();
    assert!(app.edit_record().is_none());
    assert_eq!(app.status_message, "Неверный ID");
    app.edit_id = "0".to_string();
    assert!(app.edit_record().is_none());
    assert_eq!(app.status_message, "Неверный ID");
    app.edit_id = "42".to_string();
    assert!(app.edit_record().is_none());
    assert_eq!(app.status_message, "Запись с таким ID не найдена");
    assert_eq!(app.records[0].genus, "A");
}

#[test]
fn delete_record_removes_and_reports() {
    let mut app = browser(&["A", "B", "C"]);
    app.delete_id = "2".to_string();
    assert!(matches!(app.delete_record(), Some(StoreChange::Deleted(2))));
    assert_eq!(app.records.iter().map(|r| r.id).collect::<Vec<_>>(), vec![1, 3]);
    assert_eq!(app.status_message, "Запись успешно удалена");
    assert!(app.delete_record().is_none());
    assert_eq!(app.status_message, "Запись с таким ID не найдена");
    app.delete_id = "-1".to_string();
    assert!(app.delete_record().is_none());
    assert_eq!(app.status_message, "Неверный ID");
    assert_eq!(app.records.len(), 2);
}

#[test]
fn browser_search_and_sort() {
    let mut app = browser(&["Pontogammarus", "Hyalella", "Gammarus"]);
    app.search_term = "GAMMA".to_string();
    let found = app.filtered_records();
    assert_eq!(found.iter().map(|r| r.id).collect::<Vec<_>>(), vec![1, 3]);
    app.sort_records("Род", SortDirection::Ascending);
    assert_eq!(app.records.iter().map(|r| r.id).collect::<Vec<_>>(), vec![3, 2, 1]);
    app.sort_records("Genus", SortDirection::Ascending);
    assert_eq!(app.status_message, "Неверное имя столбца");
    assert_eq!(app.records.iter().map(|r| r.id).collect::<Vec<_>>(), vec![3, 2, 1]);
    app.refresh_records();
    assert_eq!(app.records.iter().map(|r| r.id).collect::<Vec<_>>(), vec![1, 2, 3]);
    assert_eq!(app.status_message, "Неверное имя столбца");
    app.sort_records("Род", SortDirection::Descending);
    app.on_refresh_click();
    assert_eq!(app.records.iter().map(|r| r.id).collect::<Vec<_>>(), vec![1, 2, 3]);
    assert_eq!(app.status_message, "Данные обновлены");
}

#[test]
fn refresh_keeps_status_line() {
    let mut app = browser(&["A"]);
    app.status_message = "Ошибка: диск".to_string();
    app.refresh_records();
    assert_eq!(app.status_message, "Ошибка: диск");
}

#[test]
fn not_found_relists_table() {
    let mut app = browser(&["B", "A"]);
    app.sort_records("Род", SortDirection::Ascending);
    assert_eq!(app.records.iter().map(|r| r.id).collect::<Vec<_>>(), vec![2, 1]);
    app.delete_id = "9".to_string();
    assert!(app.delete_record().is_none());
    assert_eq!(app.records.iter().map(|r| r.id).collect::<Vec<_>>(), vec![1, 2]);
    app.sort_records("Род", SortDirection::Ascending);
    app.edit_id = "9".to_string();
    app.edit_column = "Род".to_string();
    app.edit_value = "C".to_string();
    assert!(app.edit_record().is_none());
    assert_eq!(app.records.iter().map(|r| r.id).collect::<Vec<_>>(), vec![1, 2]);
    assert_eq!(app.status_message, "Запись с таким ID не найдена");
}

#[test]
fn tabs_compare() {
    assert_eq!(Tab::View, Tab::View);
    assert_ne!(Tab::Add, Tab::Delete);
}

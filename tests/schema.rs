use eucarinogammarus::columns::{Column, ATTRIBUTE_COUNT};
use eucarinogammarus::identifier::parse_id;
use eucarinogammarus::sql::{create_table_sql, delete_sql, insert_sql, select_all_sql, update_sql};
use eucarinogammarus::text::{chars_of, contains_chars, same_text, text_less};

const NAMES: [&str; 24] = [
    "Код", "Род", "Вид", "Размеры_мм", "Тело", "Окраска", "Распространение",
    "Глубина_м", "Вооруж_тела", "Средний_ряд_I_VII", "Средн_ряд_VIII_X",
    "Сред_ряд_урозом", "Боковой_ряд", "Краевой_ряд", "Особен_воор",
    "Эпимир_пласт", "Верх_антенны", "Прид_жгутик", "Нижн_антенны",
    "Базип_III_V", "Уроподы_III", "Головн_сегм", "Глаза", "Тельсон",
];

#[test]
fn allow_list_accepts_every_name() {
    assert_eq!(ATTRIBUTE_COUNT, 24);
    for (i, name) in NAMES.iter().enumerate() {
        let c = Column::parse(name).unwrap();
        assert_eq!(c.index(), i);
        assert_eq!(c.name(), *name);
        assert_eq!(Column::from_index(i), c);
    }
}

#[test]
fn allow_list_rejects_others() {
    for bad in ["", "id", "код", "Код ", "Тело; DROP TABLE x", "Eucarinogammarus", "Размеры мм"] {
        assert_eq!(Column::parse(bad), None);
    }
}

#[test]
fn statements_text() {
    let create = create_table_sql();
    assert!(create.starts_with("CREATE TABLE IF NOT EXISTS Eucarinogammarus (id INTEGER PRIMARY KEY, Код TEXT, Род TEXT"));
    assert!(create.ends_with(", Глаза TEXT, Тельсон TEXT)"));
    assert_eq!(create.matches(" TEXT").count(), 24);
    let select = select_all_sql();
    assert!(select.starts_with("SELECT id, Код, Род, Вид, Размеры_мм"));
    assert!(select.ends_with("Глаза, Тельсон FROM Eucarinogammarus ORDER BY id"));
    let insert = insert_sql();
    assert!(insert.starts_with("INSERT INTO Eucarinogammarus (id, Код, "));
    assert!(insert.ends_with("Тельсон) VALUES (?, ?, ?, ?, ?, ?, ?, ?, ?, ?, ?, ?, ?, ?, ?, ?, ?, ?, ?, ?, ?, ?, ?, ?, ?)"));
    assert_eq!(insert.matches('?').count(), 25);
    assert_eq!(update_sql(Column::Genus), "UPDATE Eucarinogammarus SET Род = ?1 WHERE id = ?2");
    assert_eq!(delete_sql(), "DELETE FROM Eucarinogammarus WHERE id = ?1");
}

#[test]
fn identifiers_parse() {
    assert_eq!(parse_id("5"), Some(5));
    assert_eq!(parse_id("+12"), Some(12));
    assert_eq!(parse_id("007"), Some(7));
    assert_eq!(parse_id("2147483647"), Some(i32::MAX));
    assert_eq!(parse_id("2147483648"), None);
    assert_eq!(parse_id("99999999999999999999"), None);
    assert_eq!(parse_id("0"), None);
    assert_eq!(parse_id("-4"), None);
    assert_eq!(parse_id(""), None);
    assert_eq!(parse_id("+"), None);
    assert_eq!(parse_id(" 5"), None);
    assert_eq!(parse_id("5a"), None);
}

#[test]
fn text_helpers() {
    assert!(same_text("Код", "Код"));
    assert!(!same_text("Код", "Кот"));
    assert!(!same_text("a", "ab"));
    let a = chars_of("abc");
    assert_eq!(a, vec!['a', 'b', 'c']);
    assert!(text_less(&chars_of("ab"), &chars_of("abc")));
    assert!(!text_less(&chars_of("abc"), &chars_of("abc")));
    assert!(text_less(&chars_of("Z"), &chars_of("a")));
    assert!(contains_chars(&chars_of("Pontogammarus"), &chars_of("gamma")));
    assert!(!contains_chars(&chars_of("gam"), &chars_of("gamma")));
    assert!(contains_chars(&chars_of(""), &chars_of("")));
}

//! The state behind a front-end: the listed records, the entry fields of the
//! add, edit and delete pages, and the status line. Each action validates
//! its fields, applies the change to the repository and names the change
//! that the store must receive.
use vstd::prelude::*;

use crate::columns::{column_named, lemma_names_distinct, Column, SortDirection};
use crate::identifier::{id_written, parse_id};
use crate::record::{Eucarinogammarus, NewRecord};
use crate::repository::{has_id, inserted, next_id, removed, updated, Repository};
use crate::search::{filtered_records, matching};
use crate::sorting::sorted_by;

verus! {

/// The pages of the record browser.
#[derive(Clone, Copy, Debug, PartialEq, Eq, Structural)]
pub enum Tab {
    View,
    Add,
    Edit,
    Delete,
}

/// A change made to the repository that the persistent store must repeat.
#[derive(Debug)]
pub enum StoreChange {
    /// A record was added.
    Inserted(Eucarinogammarus),
    /// Attribute `column` of the record `id` was set to `value`.
    Updated { id: i32, column: Column, value: String },
    /// The record `id` was removed.
    Deleted(i32),
}

/// The status line after a successful insert; the functions below give the
/// status line after each other outcome.
pub open spec fn added_text() -> Seq<char> {
    "Запись успешно добавлена"@
}

pub open spec fn updated_text() -> Seq<char> {
    "Запись успешно обновлена"@
}

pub open spec fn deleted_text() -> Seq<char> {
    "Запись успешно удалена"@
}

pub open spec fn bad_column_text() -> Seq<char> {
    "Неверное имя столбца"@
}

pub open spec fn bad_id_text() -> Seq<char> {
    "Неверный ID"@
}

pub open spec fn not_found_text() -> Seq<char> {
    "Запись с таким ID не найдена"@
}

pub open spec fn ids_exhausted_text() -> Seq<char> {
    "Нет свободных ID"@
}

pub open spec fn refreshed_text() -> Seq<char> {
    "Данные обновлены"@
}

/// The state of the record browser.
pub struct EucarinogammarusApp {
    pub repo: Repository,
    pub records: Vec<Eucarinogammarus>,
    pub selected_tab: Tab,
    pub search_term: String,
    pub new_record: NewRecord,
    pub edit_id: String,
    pub edit_column: String,
    pub edit_value: String,
    pub delete_id: String,
    pub status_message: String,
}

impl EucarinogammarusApp {
    /// The records of the repository behind the browser.
    pub open spec fn table(&self) -> Seq<Eucarinogammarus> {
        self.repo@
    }

    pub open spec fn well_formed(&self) -> bool {
        self.repo.well_formed()
    }

    /// Whether `self` has the same page, search term and entry fields as
    /// `other`, the add page's fields aside.
    pub open spec fn same_inputs(&self, other: &Self) -> bool {
        &&& self.selected_tab == other.selected_tab
        &&& self.search_term == other.search_term
        &&& self.edit_id == other.edit_id
        &&& self.edit_column == other.edit_column
        &&& self.edit_value == other.edit_value
        &&& self.delete_id == other.delete_id
    }

    /// A browser over `repo`, on the view page, listing every record, with
    /// empty entry fields.
    pub fn new(repo: Repository) -> (r: EucarinogammarusApp)
        requires
            repo.well_formed(),
        ensures
            r.well_formed(),
            r.table() == repo@,
            r.records@ == repo@,
            r.selected_tab == Tab::View,
            r.search_term@.len() == 0,
            r.edit_id@.len() == 0,
            r.edit_column@.len() == 0,
            r.edit_value@.len() == 0,
            r.delete_id@.len() == 0,
            r.status_message@.len() == 0,
            r.new_record.code@.len() == 0,
            r.new_record.genus@.len() == 0,
            r.new_record.species@.len() == 0,
            r.new_record.size_mm@.len() == 0,
            r.new_record.body@.len() == 0,
    {
        let records = repo.load_all();
        EucarinogammarusApp {
            repo,
            records,
            selected_tab: Tab::View,
            search_term: String::new(),
            new_record: NewRecord {
                code: String::new(),
                genus: String::new(),
                species: String::new(),
                size_mm: String::new(),
                body: String::new(),
            },
            edit_id: String::new(),
            edit_column: String::new(),
            edit_value: String::new(),
            delete_id: String::new(),
            status_message: String::new(),
        }
    }

    /// Lists every record again, in insertion order; nothing else changes.
    pub fn refresh_records(&mut self)
        requires
            old(self).well_formed(),
        ensures
            final(self).well_formed(),
            final(self).same_inputs(old(self)),
            final(self).new_record == old(self).new_record,
            final(self).table() == old(self).table(),
            final(self).records@ == old(self).table(),
            final(self).status_message == old(self).status_message,
    {
        self.records = self.repo.load_all();
    }

    /// The refresh button: lists every record again and says so on the
    /// status line.
    pub fn on_refresh_click(&mut self)
        requires
            old(self).well_formed(),
        ensures
            final(self).well_formed(),
            final(self).same_inputs(old(self)),
            final(self).new_record == old(self).new_record,
            final(self).table() == old(self).table(),
            final(self).records@ == old(self).table(),
            final(self).status_message@ == refreshed_text(),
    {
        self.refresh_records();
        self.status_message = String::from_str("Данные обновлены");
    }

    /// Lists every record sorted stably by the attribute named `column`;
    /// a name outside the allow-list only sets the status line.
    pub fn sort_records(&mut self, column: &str, direction: SortDirection)
        requires
            old(self).well_formed(),
        ensures
            final(self).well_formed(),
            final(self).same_inputs(old(self)),
            final(self).new_record == old(self).new_record,
            final(self).table() == old(self).table(),
            match column_named(column@) {
                Some(c) => sorted_by(old(self).table(), final(self).records@, c, direction),
                None => final(self).records@ == old(self).records@ && final(self).status_message@
                    == bad_column_text(),
            },
    {
        match Column::parse(column) {
            Some(c) => {
                self.records = self.repo.load_sorted(c, direction);
            },
            None => {
                self.status_message = String::from_str("Неверное имя столбца");
            },
        }
    }

    /// Inserts the record of the add page's fields. On success the fields
    /// are cleared and the listing refreshed, and the new record is handed
    /// back for the store.
    pub fn add_record(&mut self) -> (r: Option<StoreChange>)
        requires
            old(self).well_formed(),
        ensures
            final(self).well_formed(),
            final(self).same_inputs(old(self)),
            r is Some <==> next_id(old(self).table()) <= i32::MAX,
            match r {
                Some(change) => {
                    &&& inserted(
                        old(self).table(),
                        final(self).table(),
                        next_id(old(self).table()),
                        seq![
                            old(self).new_record.code@,
                            old(self).new_record.genus@,
                            old(self).new_record.species@,
                            old(self).new_record.size_mm@,
                            old(self).new_record.body@,
                        ],
                    )
                    &&& change == StoreChange::Inserted(final(self).table().last())
                    &&& final(self).records@ == final(self).table()
                    &&& final(self).new_record.code@.len() == 0
                    &&& final(self).new_record.genus@.len() == 0
                    &&& final(self).new_record.species@.len() == 0
                    &&& final(self).new_record.size_mm@.len() == 0
                    &&& final(self).new_record.body@.len() == 0
                    &&& final(self).status_message@ == added_text()
                },
                None => {
                    &&& final(self).table() == old(self).table()
                    &&& final(self).records@ == old(self).records@
                    &&& final(self).new_record == old(self).new_record
                    &&& final(self).status_message@ == ids_exhausted_text()
                },
            },
    {
        let values = self.new_record.to_values();
        match self.repo.insert(&values) {
            Ok(id) => {
                let n = self.repo.len();
                let all = self.repo.load_all();
                let record = all[n - 1].clone();
                self.new_record = NewRecord {
                    code: String::new(),
                    genus: String::new(),
                    species: String::new(),
                    size_mm: String::new(),
                    body: String::new(),
                };
                self.records = all;
                self.status_message = String::from_str("Запись успешно добавлена");
                Some(StoreChange::Inserted(record))
            },
            Err(_) => {
                self.status_message = String::from_str("Нет свободных ID");
                None
            },
        }
    }
    /// Sets the attribute named by the edit page's column field, of the
    /// record whose identifier the edit page's id field writes, to the edit
    /// page's value, then lists every record again. The column is checked
    /// first, then the identifier: either failing only sets the status line.
    /// An identifier that no record has changes no record, and the listing
    /// shows the table.
    pub fn edit_record(&mut self) -> (r: Option<StoreChange>)
        requires
            old(self).well_formed(),
        ensures
            final(self).well_formed(),
            final(self).same_inputs(old(self)),
            final(self).new_record == old(self).new_record,
            r is None ==> final(self).table() == old(self).table(),
            match column_named(old(self).edit_column@) {
                None => {
                    &&& r is None
                    &&& final(self).records@ == old(self).records@
                    &&& final(self).status_message@ == bad_column_text()
                },
                Some(c) => match id_written(old(self).edit_id@) {
                    None => {
                        &&& r is None
                        &&& final(self).records@ == old(self).records@
                        &&& final(self).status_message@ == bad_id_text()
                    },
                    Some(id) => if has_id(old(self).table(), id) {
                        &&& updated(old(self).table(), final(self).table(), id, c, old(self).edit_value@)
                        &&& final(self).records@ == final(self).table()
                        &&& final(self).status_message@ == updated_text()
                        &&& r matches Some(StoreChange::Updated { id: i, column: col, value: v })
                        &&& i == id && col == c && v == old(self).edit_value
                    } else {
                        &&& r is None
                        &&& final(self).records@ == final(self).table()
                        &&& final(self).status_message@ == not_found_text()
                    },
                },
            },
    {
        let c = match Column::parse(self.edit_column.as_str()) {
            Some(c) => c,
            None => {
                self.status_message = String::from_str("Неверное имя столбца");
                return None;
            },
        };
        let id = match parse_id(self.edit_id.as_str()) {
            Some(id) => id,
            None => {
                self.status_message = String::from_str("Неверный ID");
                return None;
            },
        };
        let value = self.edit_value.clone();
        match self.repo.update_field(id, self.edit_column.as_str(), value) {
            Ok(()) => {
                proof {
                    let d = choose|d: Column|
                        d.name_of() == old(self).edit_column@ && updated(
                            old(self).table(),
                            self.table(),
                            id as int,
                            d,
                            old(self).edit_value@,
                        );
                    lemma_names_distinct(c, d);
                }
                self.records = self.repo.load_all();
                self.status_message = String::from_str("Запись успешно обновлена");
                Some(StoreChange::Updated { id, column: c, value: self.edit_value.clone() })
            },
            Err(_) => {
                self.records = self.repo.load_all();
                self.status_message = String::from_str("Запись с таким ID не найдена");
                None
            },
        }
    }

    /// Removes the record whose identifier the delete page's id field
    /// writes, then lists every record again. A text that writes no
    /// identifier only sets the status line; an identifier that no record
    /// has changes no record, and the listing shows the table.
    pub fn delete_record(&mut self) -> (r: Option<StoreChange>)
        requires
            old(self).well_formed(),
        ensures
            final(self).well_formed(),
            final(self).same_inputs(old(self)),
            final(self).new_record == old(self).new_record,
            r is None ==> final(self).table() == old(self).table(),
            match id_written(old(self).delete_id@) {
                None => {
                    &&& r is None
                    &&& final(self).records@ == old(self).records@
                    &&& final(self).status_message@ == bad_id_text()
                },
                Some(id) => if has_id(old(self).table(), id) {
                    &&& removed(old(self).table(), final(self).table(), id)
                    &&& final(self).records@ == final(self).table()
                    &&& final(self).status_message@ == deleted_text()
                    &&& r matches Some(StoreChange::Deleted(i))
                    &&& i == id
                } else {
                    &&& r is None
                    &&& final(self).records@ == final(self).table()
                    &&& final(self).status_message@ == not_found_text()
                },
            },
    {
        let id = match parse_id(self.delete_id.as_str()) {
            Some(id) => id,
            None => {
                self.status_message = String::from_str("Неверный ID");
                return None;
            },
        };
        match self.repo.delete(id) {
            Ok(()) => {
                self.records = self.repo.load_all();
                self.status_message = String::from_str("Запись успешно удалена");
                Some(StoreChange::Deleted(id))
            },
            Err(_) => {
                self.records = self.repo.load_all();
                self.status_message = String::from_str("Запись с таким ID не найдена");
                None
            },
        }
    }

    /// The listed records that match the search term (see
    /// `search::record_matches`), in listing order.
    pub fn filtered_records(&self) -> (r: Vec<Eucarinogammarus>)
        ensures
            r@ == matching(self.records@, self.search_term@),
    {
        filtered_records(&self.records, self.search_term.as_str())
    }
}

} // verus!

//! The record repository: the table's rows in insertion order, with the
//! operations that read and change them.
use vstd::prelude::*;

use crate::columns::{Column, SortDirection};
use crate::record::{value_or_empty, Eucarinogammarus};
use crate::sorting::{sort_records, sorted_by};

verus! {

/// Why a repository operation was refused. A refused operation changes
/// nothing.
#[derive(Clone, Copy, Debug, PartialEq, Eq, Structural)]
pub enum RepoError {
    /// The column name is not one of the attribute names.
    InvalidColumn,
    /// The identifier is not positive.
    InvalidId,
    /// No record has the identifier.
    NotFound,
    /// The next identifier would not fit in an `i32`.
    IdSpaceExhausted,
    /// Rows handed in are not in increasing order of positive identifiers.
    UnorderedIds,
}

/// Identifiers are positive and strictly increase along the sequence, which
/// is the order of insertion; so no two records share one.
pub open spec fn ids_ordered(s: Seq<Eucarinogammarus>) -> bool {
    &&& forall|i: int| 0 <= i < s.len() ==> #[trigger] s[i].id > 0
    &&& forall|i: int, j: int| 0 <= i < j < s.len() ==> s[i].id < s[j].id
}

/// The identifier the next insert assigns: one past the largest in use, or 1
/// for an empty table.
pub open spec fn next_id(s: Seq<Eucarinogammarus>) -> int {
    if s.len() == 0 {
        1
    } else {
        s.last().id + 1
    }
}

/// Whether some record has identifier `id`.
pub open spec fn has_id(s: Seq<Eucarinogammarus>, id: int) -> bool {
    exists|i: int| 0 <= i < s.len() && #[trigger] s[i].id == id
}

/// `after` is `before` with attribute `c` of the record with identifier `id`
/// set to `value`; every other record and attribute is kept.
pub open spec fn updated(
    before: Seq<Eucarinogammarus>,
    after: Seq<Eucarinogammarus>,
    id: int,
    c: Column,
    value: Seq<char>,
) -> bool {
    &&& after.len() == before.len()
    &&& forall|i: int|
        0 <= i < before.len() ==> if before[i].id == id {
            after[i].is_update_of(before[i], c, value)
        } else {
            #[trigger] after[i] == before[i]
        }
}

/// `after` is `before` with a record appended that has identifier `id` and
/// the positional `values`.
pub open spec fn inserted(
    before: Seq<Eucarinogammarus>,
    after: Seq<Eucarinogammarus>,
    id: int,
    values: Seq<Seq<char>>,
) -> bool {
    &&& after.len() == before.len() + 1
    &&& after.drop_last() == before
    &&& after.last().holds(id, values)
}

/// `after` is `before` without the record that has identifier `id`.
pub open spec fn removed(before: Seq<Eucarinogammarus>, after: Seq<Eucarinogammarus>, id: int) -> bool {
    exists|k: int| 0 <= k < before.len() && before[k].id == id && after == before.remove(k)
}

/// The table of specimen records.
pub struct Repository {
    records: Vec<Eucarinogammarus>,
}

impl View for Repository {
    type V = Seq<Eucarinogammarus>;

    closed spec fn view(&self) -> Seq<Eucarinogammarus> {
        self.records@
    }
}

impl Repository {
    /// The identifiers of the records are positive and increase in insertion
    /// order. Every constructor establishes it and every operation keeps it.
    pub open spec fn well_formed(&self) -> bool {
        ids_ordered(self@)
    }

    /// An empty table.
    pub fn new() -> (r: Repository)
        ensures
            r@ == Seq::<Eucarinogammarus>::empty(),
            r.well_formed(),
    {
        Repository { records: Vec::new() }
    }

    /// A table holding `rows` as they are, which must come in increasing
    /// order of positive identifiers (as the store lists them by identifier).
    pub fn from_rows(rows: Vec<Eucarinogammarus>) -> (r: Result<Repository, RepoError>)
        ensures
            r is Ok <==> ids_ordered(rows@),
            r matches Ok(repo) ==> repo@ == rows@ && repo.well_formed(),
            r matches Err(e) ==> e == RepoError::UnorderedIds,
    {
        let mut i: usize = 0;
        while i < rows.len()
            invariant
                i <= rows@.len(),
                ids_ordered(rows@.subrange(0, i as int)),
            decreases rows@.len() - i,
        {
            if rows[i].id <= 0 || (i > 0 && rows[i - 1].id >= rows[i].id) {
                proof {
                    if rows@[i as int].id > 0 {
                        assert(rows@[i - 1].id >= rows@[i as int].id);
                    } else {
                        assert(rows@[i as int].id <= 0);
                    }
                }
                return Err(RepoError::UnorderedIds);
            }
            proof {
                let p = rows@.subrange(0, i + 1);
                assert forall|a: int, b: int| 0 <= a < b < p.len() implies p[a].id < p[b].id by {
                    if b == i {
                        if a < i - 1 {
                            assert(rows@.subrange(0, i as int)[a].id < rows@.subrange(0, i as int)[i - 1].id);
                        }
                    } else {
                        assert(rows@.subrange(0, i as int)[a].id < rows@.subrange(0, i as int)[b].id);
                    }
                }
                assert forall|a: int| 0 <= a < p.len() implies #[trigger] p[a].id > 0 by {
                    if a < i {
                        assert(rows@.subrange(0, i as int)[a].id > 0);
                    }
                }
            }
            i = i + 1;
        }
        assert(rows@ == rows@.subrange(0, rows@.len() as int));
        Ok(Repository { records: rows })
    }

    /// Number of records.
    pub fn len(&self) -> (r: usize)
        ensures
            r == self@.len(),
    {
        self.records.len()
    }

    pub fn is_empty(&self) -> (r: bool)
        ensures
            r == (self@.len() == 0),
    {
        self.records.len() == 0
    }

    /// All records, in insertion order.
    pub fn load_all(&self) -> (r: Vec<Eucarinogammarus>)
        ensures
            r@ == self@,
    {
        let mut r: Vec<Eucarinogammarus> = Vec::new();
        let mut i: usize = 0;
        while i < self.records.len()
            invariant
                i <= self@.len(),
                r@ == self@.subrange(0, i as int),
            decreases self@.len() - i,
        {
            r.push(self.records[i].clone());
            assert(self@.subrange(0, i + 1) == self@.subrange(0, i as int).push(self@[i as int]));
            i = i + 1;
        }
        assert(self@ == self@.subrange(0, self@.len() as int));
        r
    }

    /// The identifier the next insert would assign (one past the last).
    pub fn next_free_id(&self) -> (r: i64)
        requires
            self.well_formed(),
        ensures
            r == next_id(self@),
            1 <= r <= i32::MAX + 1,
    {
        let n = self.records.len();
        if n == 0 {
            1
        } else {
            self.records[n - 1].id as i64 + 1
        }
    }

    /// Position of the record with identifier `id`, if there is one.
    pub fn position_of(&self, id: i32) -> (r: Option<usize>)
        ensures
            match r {
                Some(k) => k < self@.len() && self@[k as int].id == id,
                None => !has_id(self@, id as int),
            },
    {
        let mut i: usize = 0;
        while i < self.records.len()
            invariant
                i <= self@.len(),
                forall|j: int| 0 <= j < i ==> #[trigger] self@[j].id != id,
            decreases self@.len() - i,
        {
            if self.records[i].id == id {
                return Some(i);
            }
            i = i + 1;
        }
        None
    }

    /// The record with identifier `id`, if there is one.
    pub fn find(&self, id: i32) -> (r: Option<&Eucarinogammarus>)
        ensures
            match r {
                Some(rec) => rec.id == id && exists|k: int| 0 <= k < self@.len() && self@[k] == *rec,
                None => !has_id(self@, id as int),
            },
    {
        match self.position_of(id) {
            Some(k) => Some(&self.records[k]),
            None => None,
        }
    }

    /// Inserts a record built from positional values (see
    /// `Eucarinogammarus::from_values`) under the next identifier, and
    /// returns that identifier.
    pub fn insert(&mut self, values: &Vec<String>) -> (r: Result<i32, RepoError>)
        requires
            old(self).well_formed(),
        ensures
            final(self).well_formed(),
            r is Ok <==> next_id(old(self)@) <= i32::MAX,
            match r {
                Ok(id) => id == next_id(old(self)@) && inserted(
                    old(self)@,
                    final(self)@,
                    id as int,
                    values.deep_view(),
                ),
                Err(e) => e == RepoError::IdSpaceExhausted && final(self)@ == old(self)@,
            },
    {
        let n = self.records.len();
        let id: i32 = if n == 0 {
            1
        } else {
            let last = self.records[n - 1].id;
            if last == i32::MAX {
                return Err(RepoError::IdSpaceExhausted);
            }
            last + 1
        };
        let record = Eucarinogammarus::from_values(id, values);
        self.records.push(record);
        assert(self@.drop_last() == old(self)@);
        Ok(id)
    }

    /// Sets attribute `column` of the record with identifier `id` to
    /// `value`. The column name must be one of the attribute names (checked
    /// first), the identifier positive, and a record must have it.
    pub fn update_field(&mut self, id: i32, column: &str, value: String) -> (r: Result<
        (),
        RepoError,
    >)
        requires
            old(self).well_formed(),
        ensures
            final(self).well_formed(),
            (forall|c: Column| c.name_of() != column@) ==> r == Err::<(), RepoError>(
                RepoError::InvalidColumn,
            ),
            (exists|c: Column| c.name_of() == column@) && id <= 0 ==> r == Err::<(), RepoError>(
                RepoError::InvalidId,
            ),
            (exists|c: Column| c.name_of() == column@) && id > 0 && !has_id(old(self)@, id as int)
                ==> r == Err::<(), RepoError>(RepoError::NotFound),
            (exists|c: Column| c.name_of() == column@) && has_id(old(self)@, id as int) ==> r is Ok,
            r is Err ==> final(self)@ == old(self)@,
            r is Ok ==> exists|c: Column|
                c.name_of() == column@ && updated(old(self)@, final(self)@, id as int, c, value@),
    {
        let c = match Column::parse(column) {
            Some(c) => c,
            None => {
                return Err(RepoError::InvalidColumn);
            },
        };
        if id <= 0 {
            proof {
                assert(!has_id(old(self)@, id as int));
            }
            return Err(RepoError::InvalidId);
        }
        let k = match self.position_of(id) {
            Some(k) => k,
            None => {
                return Err(RepoError::NotFound);
            },
        };
        let mut record = self.records[k].clone();
        record.set_attribute(c, value);
        proof {
            let s = self@.update(k as int, record);
            assert forall|i: int, j: int| 0 <= i < j < s.len() implies s[i].id < s[j].id by {
                assert(s[i].id == self@[i].id);
                assert(s[j].id == self@[j].id);
            }
            assert forall|i: int| 0 <= i < s.len() implies #[trigger] s[i].id > 0 by {
                assert(s[i].id == self@[i].id);
            }
        }
        self.records.set(k, record);
        proof {
            let before = old(self)@;
            let after = self@;
            assert forall|i: int| 0 <= i < before.len() && before[i].id == id implies i == k by {
                if i < k {
                    assert(before[i].id < before[k as int].id);
                } else if i > k {
                    assert(before[k as int].id < before[i].id);
                }
            }
            assert(updated(before, after, id as int, c, value@));
        }
        Ok(())
    }

    /// Removes the record with identifier `id`, which must be positive and
    /// in use.
    pub fn delete(&mut self, id: i32) -> (r: Result<(), RepoError>)
        requires
            old(self).well_formed(),
        ensures
            final(self).well_formed(),
            id <= 0 ==> r == Err::<(), RepoError>(RepoError::InvalidId),
            id > 0 && !has_id(old(self)@, id as int) ==> r == Err::<(), RepoError>(
                RepoError::NotFound,
            ),
            has_id(old(self)@, id as int) ==> r is Ok,
            r is Err ==> final(self)@ == old(self)@,
            r is Ok ==> removed(old(self)@, final(self)@, id as int),
    {
        if id <= 0 {
            proof {
                assert(!has_id(old(self)@, id as int));
            }
            return Err(RepoError::InvalidId);
        }
        let k = match self.position_of(id) {
            Some(k) => k,
            None => {
                return Err(RepoError::NotFound);
            },
        };
        proof {
            let s = self@.remove(k as int);
            assert forall|a: int, b: int| 0 <= a < b < s.len() implies s[a].id < s[b].id by {
                let a0 = if a < k { a } else { a + 1 };
                let b0 = if b < k { b } else { b + 1 };
                assert(s[a] == self@[a0]);
                assert(s[b] == self@[b0]);
            }
            assert forall|a: int| 0 <= a < s.len() implies #[trigger] s[a].id > 0 by {
                let a0 = if a < k { a } else { a + 1 };
                assert(s[a] == self@[a0]);
            }
        }
        self.records.remove(k);
        assert(removed(old(self)@, self@, id as int));
        Ok(())
    }
    /// All records sorted stably by attribute `column` in `direction`.
    pub fn load_sorted(&self, column: Column, direction: SortDirection) -> (r: Vec<
        Eucarinogammarus,
    >)
        ensures
            sorted_by(self@, r@, column, direction),
    {
        sort_records(&self.records, column, direction)
    }
}

/// All records of `repo`, in insertion order.
pub fn load_records(repo: &Repository) -> (r: Vec<Eucarinogammarus>)
    ensures
        r@ == repo@,
{
    repo.load_all()
}

/// All records of `repo` sorted stably by the attribute whose column name is
/// `sort_column`. A name outside the allow-list is refused before any record
/// is read.
pub fn load_records_sorted(repo: &Repository, sort_column: &str, direction: SortDirection) -> (r:
    Result<Vec<Eucarinogammarus>, RepoError>)
    ensures
        r is Err <==> forall|c: Column| c.name_of() != sort_column@,
        r matches Err(e) ==> e == RepoError::InvalidColumn,
        r matches Ok(v) ==> exists|c: Column|
            c.name_of() == sort_column@ && sorted_by(repo@, v@, c, direction),
{
    match Column::parse(sort_column) {
        Some(c) => Ok(repo.load_sorted(c, direction)),
        None => Err(RepoError::InvalidColumn),
    }
}

/// Inserting and then listing every record gives back exactly one record
/// with the new identifier, and it holds the inserted values (empty for
/// attributes past the given ones).
pub proof fn lemma_insert_round_trip(
    before: Seq<Eucarinogammarus>,
    after: Seq<Eucarinogammarus>,
    id: int,
    values: Seq<Seq<char>>,
)
    requires
        ids_ordered(before),
        id == next_id(before),
        inserted(before, after, id, values),
    ensures
        forall|k: int| 0 <= k < after.len() ==> (#[trigger] after[k].id == id <==> k == after.len() - 1),
        forall|c: Column| #[trigger] after.last().attr(c) == value_or_empty(values, c.position()),
{
    assert forall|k: int| 0 <= k < after.len() implies (#[trigger] after[k].id == id <==> k == after.len() - 1) by {
        if k < after.len() - 1 {
            assert(after[k] == before[k]);
            if k < before.len() - 1 {
                assert(before[k].id < before.last().id);
            }
        }
    }
}

/// Setting an attribute of one record changes no other record, and no other
/// attribute nor the identifier of that record.
pub proof fn lemma_update_isolated(
    before: Seq<Eucarinogammarus>,
    after: Seq<Eucarinogammarus>,
    id: int,
    c: Column,
    value: Seq<char>,
)
    requires
        ids_ordered(before),
        updated(before, after, id, c, value),
    ensures
        ids_ordered(after),
        forall|i: int| 0 <= i < before.len() && before[i].id != id ==> #[trigger] after[i] == before[i],
        forall|i: int, d: Column|
            0 <= i < before.len() && before[i].id == id && d != c ==> #[trigger] after[i].attr(d)
                == before[i].attr(d),
        forall|i: int| 0 <= i < before.len() ==> #[trigger] after[i].id == before[i].id,
{
    assert forall|i: int| 0 <= i < before.len() implies #[trigger] after[i].id == before[i].id by {
        if before[i].id == id {
            assert(after[i].is_update_of(before[i], c, value));
        } else {
            assert(after[i] == before[i]);
        }
    }
    assert forall|i: int, d: Column|
        0 <= i < before.len() && before[i].id == id && d != c implies #[trigger] after[i].attr(d)
            == before[i].attr(d) by {
        assert(after[i].is_update_of(before[i], c, value));
    }
    assert forall|i: int| 0 <= i < after.len() implies #[trigger] after[i].id > 0 by {
        assert(after[i].id == before[i].id);
    }
    assert forall|i: int, j: int| 0 <= i < j < after.len() implies after[i].id < after[j].id by {
        assert(after[i].id == before[i].id);
        assert(after[j].id == before[j].id);
    }
}

/// After a delete no record has the identifier, and exactly one record fewer
/// remains.
pub proof fn lemma_delete_complete(before: Seq<Eucarinogammarus>, after: Seq<Eucarinogammarus>, id: int)
    requires
        ids_ordered(before),
        removed(before, after, id),
    ensures
        !has_id(after, id),
        after.len() == before.len() - 1,
{
    let k = choose|k: int| 0 <= k < before.len() && before[k].id == id && after == before.remove(k);
    assert forall|i: int| 0 <= i < after.len() implies #[trigger] after[i].id != id by {
        if i < k {
            assert(after[i] == before[i]);
        } else {
            assert(after[i] == before[i + 1]);
        }
    }
}

} // verus!

//! Seeding the table from CSV data: the first record is a header and is
//! skipped; each later record becomes one row, cell `i` going to the
//! attribute at position `i`.
use vstd::prelude::*;

use crate::record::Eucarinogammarus;
use crate::repository::{next_id, Repository};

verus! {

#[verifier::external_type_specification]
#[verifier::external_body]
pub struct ExCsvError(csv::Error);

/// The records of CSV data read with comma delimiters and double-quote
/// quoting, every record kept (a header too) whatever its number of cells:
/// `None` where the data cannot be read so. The reader accepts any quoting,
/// so over bytes only invalid UTF-8 gives `None`.
pub uninterp spec fn csv_rows(data: Seq<u8>) -> Option<Seq<Seq<Seq<char>>>>;

/// Relies on `csv::ReaderBuilder` (headers off, records of any length) and
/// `csv::Reader::records`: the cells of each record as text, or the first
/// error met. The outcome depends on the bytes alone.
#[verifier::external_body]
fn read_csv_rows(data: &[u8]) -> (r: Result<Vec<Vec<String>>, csv::Error>)
    ensures
        r is Ok <==> csv_rows(data@) is Some,
        r matches Ok(rows) ==> rows.deep_view() == csv_rows(data@)->Some_0,
{
    let mut reader = csv::ReaderBuilder::new().has_headers(false).flexible(true).from_reader(data);
    let mut rows: Vec<Vec<String>> = Vec::new();
    for record in reader.records() {
        rows.push(record?.iter().map(String::from).collect());
    }
    Ok(rows)
}

/// Why seeding failed. A failed seeding changes nothing.
#[derive(Debug)]
pub enum SeedError {
    /// The data is not readable CSV.
    Malformed(csv::Error),
    /// Some record would get an identifier past `i32::MAX`.
    TooManyRecords,
}

/// The records after the header.
pub open spec fn data_rows(rows: Seq<Seq<Seq<char>>>) -> Seq<Seq<Seq<char>>> {
    if rows.len() == 0 {
        rows
    } else {
        rows.drop_first()
    }
}

/// Whether identifiers from `next_id(before)` on suffice for `rows`.
pub open spec fn ids_suffice(before: Seq<Eucarinogammarus>, rows: Seq<Seq<Seq<char>>>) -> bool {
    rows.len() == 0 || next_id(before) + rows.len() - 1 <= i32::MAX
}

/// `after` is `before` followed by one record per row of `rows`, the first
/// with identifier `first_id` and each next one with the next identifier.
pub open spec fn appended(
    before: Seq<Eucarinogammarus>,
    after: Seq<Eucarinogammarus>,
    first_id: int,
    rows: Seq<Seq<Seq<char>>>,
) -> bool {
    &&& after.len() == before.len() + rows.len()
    &&& after.subrange(0, before.len() as int) == before
    &&& forall|i: int|
        0 <= i < rows.len() ==> #[trigger] after[before.len() + i].holds(first_id + i, rows[i])
}

/// The table after importing `rows`: the records after the header are
/// appended where identifiers suffice for them, else nothing changes.
pub open spec fn imported(
    before: Seq<Eucarinogammarus>,
    rows: Seq<Seq<Seq<char>>>,
    after: Seq<Eucarinogammarus>,
) -> bool {
    if ids_suffice(before, data_rows(rows)) {
        appended(before, after, next_id(before), data_rows(rows))
    } else {
        after == before
    }
}

/// The table after seeding from `data`: an empty table gets the records of
/// the data; a table that holds any record, or data that is not CSV,
/// changes nothing.
pub open spec fn seeded(
    before: Seq<Eucarinogammarus>,
    data: Seq<u8>,
    after: Seq<Eucarinogammarus>,
) -> bool {
    if before.len() > 0 {
        after == before
    } else {
        match csv_rows(data) {
            Some(rows) => imported(before, rows, after),
            None => after == before,
        }
    }
}

/// Appends one record per row of `rows` after the first (the header), and
/// returns how many. Fails, changing nothing, where the identifiers would
/// not fit.
pub fn import_rows(repo: &mut Repository, rows: &Vec<Vec<String>>) -> (r: Result<usize, SeedError>)
    requires
        old(repo).well_formed(),
    ensures
        final(repo).well_formed(),
        imported(old(repo)@, rows.deep_view(), final(repo)@),
        r is Ok <==> ids_suffice(old(repo)@, data_rows(rows.deep_view())),
        r matches Ok(n) ==> n == data_rows(rows.deep_view()).len(),
        r matches Err(e) ==> e is TooManyRecords,
{
    let ghost before = repo@;
    let ghost all = rows.deep_view();
    let ghost body = data_rows(all);
    if rows.len() == 0 {
        assert(repo@.subrange(0, repo@.len() as int) == repo@);
        return Ok(0);
    }
    let count = rows.len() - 1;
    let first = repo.next_free_id();
    let room = (i32::MAX as i64) - first + 1;
    if count as u64 > room as u64 {
        return Err(SeedError::TooManyRecords);
    }
    assert(repo@.subrange(0, repo@.len() as int) == repo@);
    let mut i: usize = 1;
    while i < rows.len()
        invariant
            1 <= i <= rows@.len(),
            count == rows@.len() - 1,
            all == rows.deep_view(),
            body == all.drop_first(),
            first == next_id(before),
            first + count - 1 <= i32::MAX,
            repo.well_formed(),
            next_id(repo@) == first + (i - 1),
            appended(before, repo@, first as int, body.subrange(0, i - 1)),
        decreases rows@.len() - i,
    {
        let ghost prev = repo@;
        let inserted = repo.insert(&rows[i]);
        assert(inserted is Ok);
        proof {
            let done = body.subrange(0, i as int);
            assert(body[i - 1] == rows@[i as int].deep_view());
            assert(repo@.subrange(0, before.len() as int) == prev.subrange(0, before.len() as int));
            assert forall|j: int| 0 <= j < done.len() implies #[trigger] repo@[before.len() + j].holds(
                first + j,
                done[j],
            ) by {
                if j < i - 1 {
                    assert(repo@[before.len() + j] == prev[before.len() + j]);
                    assert(done[j] == body.subrange(0, i - 1)[j]);
                }
            }
        }
        i = i + 1;
    }
    assert(body.subrange(0, count as int) == body);
    Ok(count)
}

/// Reads `data` as CSV and appends one record per record after the header
/// (see `import_rows`).
pub fn import_csv(repo: &mut Repository, data: &[u8]) -> (r: Result<usize, SeedError>)
    requires
        old(repo).well_formed(),
    ensures
        final(repo).well_formed(),
        match csv_rows(data@) {
            None => r matches Err(SeedError::Malformed(_)) && final(repo)@ == old(repo)@,
            Some(rows) => {
                &&& imported(old(repo)@, rows, final(repo)@)
                &&& r is Ok <==> ids_suffice(old(repo)@, data_rows(rows))
                &&& r matches Ok(n) ==> n == data_rows(rows).len()
                &&& r matches Err(e) ==> e is TooManyRecords
            },
        },
{
    match read_csv_rows(data) {
        Ok(rows) => import_rows(repo, &rows),
        Err(e) => Err(SeedError::Malformed(e)),
    }
}

/// Seeds an empty table from CSV `data` (see `import_csv`); a table that
/// already holds a record is left as it is, with `Ok(0)`.
pub fn seed_if_empty(repo: &mut Repository, data: &[u8]) -> (r: Result<usize, SeedError>)
    requires
        old(repo).well_formed(),
    ensures
        final(repo).well_formed(),
        seeded(old(repo)@, data@, final(repo)@),
        old(repo)@.len() > 0 ==> r matches Ok(0),
        old(repo)@.len() == 0 ==> match csv_rows(data@) {
            None => r matches Err(SeedError::Malformed(_)),
            Some(rows) => {
                &&& r is Ok <==> ids_suffice(old(repo)@, data_rows(rows))
                &&& r matches Ok(n) ==> n == data_rows(rows).len()
            },
        },
{
    if !repo.is_empty() {
        return Ok(0);
    }
    import_csv(repo, data)
}

/// Seeding twice from the same data adds nothing the second time: a table
/// that the first seeding filled is left alone, and one that it left empty
/// gets no record from the data either.
pub proof fn lemma_seeding_idempotent(
    first: Seq<Eucarinogammarus>,
    second: Seq<Eucarinogammarus>,
    third: Seq<Eucarinogammarus>,
    data: Seq<u8>,
)
    requires
        seeded(first, data, second),
        seeded(second, data, third),
    ensures
        third == second,
{
    if second.len() == 0 && third.len() == 0 {
        assert(third =~= second);
    }
}

} // verus!

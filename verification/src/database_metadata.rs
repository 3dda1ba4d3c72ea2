//! The metadata catalog: the record describing one uploaded database file,
//! its stored form, and the CRUD operations against the catalog table.
//!
//! A record without an id is a draft that has not been persisted; the id is
//! assigned by the store on first save and never changes afterward. The store
//! stamps time itself: a first save sets both stamps to the save's clock
//! reading, and saving an existing id rewrites the mutable fields and
//! refreshes the updated-at stamp, leaving the stored path and the created-at
//! stamp exactly as the table holds them.

use vstd::prelude::*;
use crate::catalog::{
    created_desc, delete_row, fields_cells, fields_cells_for_update, insert_row, select_all,
    select_by_id, update_row, CatalogError, StoredFields,
};
use crate::connection::DbConnection;
use crate::timestamp::{
    ascii_chars, lemma_text_order_reflects_time, lex_le, parsed_ts, rfc3339_of, ts_in_range,
    DbDateTime, format_rfc3339,
};
use crate::values::{cells_view, SqlValView, SqlValue};

verus! {

/// One catalog record: the metadata of one uploaded database file.
#[derive(Debug, Clone, PartialEq)]
pub struct DatabaseMetadata {
    /// The identity the catalog assigned on first save; absent for a draft.
    pub id: Option<i64>,
    /// The display name, originally the uploaded filename.
    pub name: String,
    /// The path of the stored database file; set once, immutable thereafter.
    pub path: String,
    /// The byte length of the file as measured at upload time.
    pub size: i64,
    /// The table count as measured at upload time.
    pub table_count: i32,
    pub is_favorite: bool,
    pub notes: Option<String>,
    /// Epoch seconds; fixed at first save.
    pub created_at: i64,
    /// Epoch seconds; refreshed on every save.
    pub updated_at: i64,
}

/// Whether a stored row has the shape this library writes: eight cells of
/// the right types, with the table count in 32-bit range.
pub open spec fn row_shape_ok(cells: Seq<SqlValView>) -> bool {
    &&& cells.len() == 8
    &&& cells[0] is Text
    &&& cells[1] is Text
    &&& cells[2] is Integer
    &&& (cells[3] matches SqlValView::Integer(tc) && -0x8000_0000 <= tc <= 0x7fff_ffff)
    &&& cells[4] is Integer
    &&& (cells[5] is Null || cells[5] is Text)
    &&& cells[6] is Text
    &&& cells[7] is Text
}

/// Whether both stored timestamp texts parse to timestamps in range.
pub open spec fn row_stamps_ok(cells: Seq<SqlValView>) -> bool {
    &&& (cells[6] matches SqlValView::Text(s) && (parsed_ts(s) matches Some(t) && ts_in_range(
        t,
    )))
    &&& (cells[7] matches SqlValView::Text(s) && (parsed_ts(s) matches Some(t) && ts_in_range(
        t,
    )))
}

/// How a decoded record corresponds to the stored row it was read from.
pub open spec fn record_matches(m: DatabaseMetadata, id: i64, cells: Seq<SqlValView>) -> bool {
    &&& m.id == Some(id)
    &&& cells.len() == 8
    &&& cells[0] == SqlValView::Text(m.name@)
    &&& cells[1] == SqlValView::Text(m.path@)
    &&& cells[2] == SqlValView::Integer(m.size)
    &&& (cells[3] matches SqlValView::Integer(tc) && tc == m.table_count as i64)
    &&& (cells[4] matches SqlValView::Integer(v) && (m.is_favorite <==> v != 0))
    &&& match m.notes {
        Some(n) => cells[5] == SqlValView::Text(n@),
        None => cells[5] is Null,
    }
    &&& (cells[6] matches SqlValView::Text(s) && parsed_ts(s) == Some(m.created_at))
    &&& (cells[7] matches SqlValView::Text(s) && parsed_ts(s) == Some(m.updated_at))
    &&& ts_in_range(m.created_at)
    &&& ts_in_range(m.updated_at)
}

/// The eight cells that persisting `m` writes.
pub open spec fn record_cells(m: DatabaseMetadata) -> Seq<SqlValView> {
    seq![
        SqlValView::Text(m.name@),
        SqlValView::Text(m.path@),
        SqlValView::Integer(m.size),
        SqlValView::Integer(m.table_count as i64),
        SqlValView::Integer(if m.is_favorite { 1i64 } else { 0i64 }),
        match m.notes {
            Some(n) => SqlValView::Text(n@),
            None => SqlValView::Null,
        },
        SqlValView::Text(rfc3339_of(m.created_at)),
        SqlValView::Text(rfc3339_of(m.updated_at)),
    ]
}

/// The cells after saving `m` over an existing row: everything from `m` but
/// the stored path and the created-at text, which stay as stored — both are
/// set once at creation and immutable thereafter.
pub open spec fn record_cells_for_update(m: DatabaseMetadata, old_row: Seq<SqlValView>) -> Seq<
    SqlValView,
> {
    record_cells(m).update(1, old_row[1]).update(6, old_row[6])
}

impl DatabaseMetadata {
    /// Both timestamps lie in the stored range and the record was not
    /// updated before it was created.
    pub open spec fn wf(self) -> bool {
        &&& ts_in_range(self.created_at)
        &&& ts_in_range(self.updated_at)
        &&& self.created_at <= self.updated_at
    }

    /// A draft record, not yet persisted, with both stamps set to `now`.
    pub fn new(
        name: String,
        path: String,
        size: i64,
        table_count: i32,
        is_favorite: bool,
        notes: Option<String>,
        now: i64,
    ) -> (r: DatabaseMetadata)
        requires
            ts_in_range(now),
        ensures
            r == (DatabaseMetadata {
                id: None,
                name,
                path,
                size,
                table_count,
                is_favorite,
                notes,
                created_at: now,
                updated_at: now,
            }),
            r.wf(),
    {
        DatabaseMetadata {
            id: None,
            name,
            path,
            size,
            table_count,
            is_favorite,
            notes,
            created_at: now,
            updated_at: now,
        }
    }

    /// A field-for-field copy carrying the given identity.
    fn copy_with_id(&self, id: Option<i64>) -> (r: DatabaseMetadata)
        ensures
            r == (DatabaseMetadata { id, ..*self }),
    {
        DatabaseMetadata {
            id,
            name: self.name.clone(),
            path: self.path.clone(),
            size: self.size,
            table_count: self.table_count,
            is_favorite: self.is_favorite,
            notes: match &self.notes {
                Some(s) => Some(s.clone()),
                None => None,
            },
            created_at: self.created_at,
            updated_at: self.updated_at,
        }
    }

    /// Renders the record's fields for binding to a statement, with both
    /// stamp texts taken from `now`: the store, not the caller, stamps time.
    fn to_stored_fields(&self, now: i64) -> (f: StoredFields)
        requires
            ts_in_range(now),
        ensures
            fields_cells(f) == record_cells(
                (DatabaseMetadata { created_at: now, updated_at: now, ..*self }),
            ),
    {
        let f = StoredFields {
            name: self.name.clone(),
            path: self.path.clone(),
            size: self.size,
            table_count: self.table_count,
            is_favorite: self.is_favorite,
            notes: match &self.notes {
                Some(s) => Some(s.clone()),
                None => None,
            },
            created_at: format_rfc3339(now),
            updated_at: format_rfc3339(now),
        };
        proof {
            assert(fields_cells(f) =~= record_cells(
                (DatabaseMetadata { created_at: now, updated_at: now, ..*self }),
            ));
        }
        f
    }

    /// Persists the record, stamping time with `now`. A draft is inserted
    /// under a fresh id above every id in use, with both stamps set to
    /// `now`; a record with an id rewrites the row under that id with the
    /// mutable fields and a refreshed updated-at stamp, leaving the stored
    /// path and created-at stamp untouched. A save to an id the catalog does
    /// not hold changes nothing. The returned copy carries what was
    /// persisted.
    pub fn save(&self, db: &mut DbConnection, now: i64) -> (r: Result<
        DatabaseMetadata,
        CatalogError,
    >)
        requires
            ts_in_range(now),
        ensures
            final(db).dir() == old(db).dir(),
            r is Err ==> final(db).catalog() == old(db).catalog(),
            r matches Ok(out) ==> match self.id {
                None => {
                    &&& out.id is Some
                    &&& !old(db).catalog().dom().contains(out.id->Some_0)
                    &&& 1 <= out.id->Some_0
                    &&& forall|e: i64|
                        old(db).catalog().dom().contains(e) ==> e < out.id->Some_0
                    &&& out == (DatabaseMetadata {
                        id: out.id,
                        created_at: now,
                        updated_at: now,
                        ..*self
                    })
                    &&& out.wf()
                    &&& final(db).catalog() == old(db).catalog().insert(
                        out.id->Some_0,
                        record_cells(out),
                    )
                },
                Some(id) => {
                    &&& out == (DatabaseMetadata { updated_at: now, ..*self })
                    &&& final(db).catalog() == if old(db).catalog().dom().contains(id) {
                        old(db).catalog().insert(
                            id,
                            record_cells_for_update(out, old(db).catalog()[id]),
                        )
                    } else {
                        old(db).catalog()
                    }
                },
            },
    {
        let f = self.to_stored_fields(now);
        match self.id {
            Some(id) => {
                match update_row(&mut db.metadata_pool, id, &f) {
                    Ok(()) => {
                        let mut out = self.copy_with_id(Some(id));
                        out.updated_at = now;
                        proof {
                            if old(db).catalog().dom().contains(id) {
                                assert(fields_cells_for_update(f, old(db).catalog()[id])
                                    =~= record_cells_for_update(out, old(db).catalog()[id]));
                            }
                        }
                        Ok(out)
                    },
                    Err(e) => Err(e),
                }
            },
            None => {
                match insert_row(&mut db.metadata_pool, &f) {
                    Ok(nid) => {
                        let mut out = self.copy_with_id(Some(nid));
                        out.created_at = now;
                        out.updated_at = now;
                        proof {
                            assert(fields_cells(f) =~= record_cells(out));
                        }
                        Ok(out)
                    },
                    Err(e) => Err(e),
                }
            },
        }
    }

    /// Looks one record up by id; absent is not an error. Fails loudly with
    /// `MalformedStoredTimestamp` when a stored stamp does not parse.
    pub fn find_by_id(db: &DbConnection, id: i64) -> (r: Result<
        Option<DatabaseMetadata>,
        CatalogError,
    >)
        ensures
            r matches Ok(o) ==> (o is Some <==> db.catalog().dom().contains(id)),
            r matches Ok(Some(m)) ==> record_matches(m, id, db.catalog()[id]),
            r matches Err(e) && e == CatalogError::MalformedStoredTimestamp ==> {
                &&& db.catalog().dom().contains(id)
                &&& row_shape_ok(db.catalog()[id])
                &&& !row_stamps_ok(db.catalog()[id])
            },
    {
        match select_by_id(&db.metadata_pool, id) {
            Ok(None) => Ok(None),
            Ok(Some(cells)) => match decode_record(id, &cells) {
                Ok(m) => Ok(Some(m)),
                Err(e) => Err(e),
            },
            Err(e) => Err(e),
        }
    }

    /// Every record of the catalog, in the store's order (by creation stamp,
    /// newest first), each id exactly once; empty when none exist.
    #[verifier::loop_isolation(false)]
    pub fn list(db: &DbConnection) -> (r: Result<Vec<DatabaseMetadata>, CatalogError>)
        ensures
            r matches Ok(v) ==> {
                &&& forall|k: int|
                    0 <= k < v@.len() ==> {
                        &&& (#[trigger] v@[k]).id is Some
                        &&& db.catalog().dom().contains(v@[k].id->Some_0)
                        &&& record_matches(v@[k], v@[k].id->Some_0, db.catalog()[v@[k].id->Some_0])
                    }
                &&& forall|k1: int, k2: int|
                    0 <= k1 < k2 < v@.len() ==> (#[trigger] v@[k1]).id != (#[trigger] v@[k2]).id
                &&& forall|id: i64|
                    db.catalog().dom().contains(id) ==> exists|k: int|
                        0 <= k < v@.len() && (#[trigger] v@[k]).id == Some(id)
                &&& forall|k1: int, k2: int|
                    0 <= k1 < k2 < v@.len() ==> created_desc(
                        db.catalog()[(#[trigger] v@[k1]).id->Some_0],
                        db.catalog()[(#[trigger] v@[k2]).id->Some_0],
                    )
            },
    {
        let rows = match select_all(&db.metadata_pool) {
            Ok(rows) => rows,
            Err(e) => {
                return Err(e);
            },
        };
        let mut out: Vec<DatabaseMetadata> = Vec::new();
        let mut k: usize = 0;
        while k < rows.len()
            invariant
                k <= rows@.len(),
                out@.len() == k,
                forall|j: int|
                    0 <= j < k ==> (#[trigger] out@[j]).id == Some(rows@[j].0) && record_matches(
                        out@[j],
                        rows@[j].0,
                        db.catalog()[rows@[j].0],
                    ),
            decreases rows@.len() - k,
        {
            let id: i64 = rows[k].0;
            match decode_record(id, &rows[k].1) {
                Ok(m) => out.push(m),
                Err(e) => {
                    return Err(e);
                },
            }
            k = k + 1;
        }
        proof {
            assert forall|id: i64| db.catalog().dom().contains(id) implies exists|k2: int|
                0 <= k2 < out@.len() && (#[trigger] out@[k2]).id == Some(id) by {
                let k2 = choose|k2: int| 0 <= k2 < rows@.len() && (#[trigger] rows@[k2]).0 == id;
                assert(out@[k2].id == Some(id));
            }
        }
        Ok(out)
    }

    /// Removes the record under `id`; removing a nonexistent id is not an
    /// error.
    pub fn delete(db: &mut DbConnection, id: i64) -> (r: Result<(), CatalogError>)
        ensures
            final(db).dir() == old(db).dir(),
            r is Ok ==> final(db).catalog() == old(db).catalog().remove(id),
            r is Err ==> final(db).catalog() == old(db).catalog(),
    {
        delete_row(&mut db.metadata_pool, id)
    }
}

/// Law: for two stored rows whose creation cells hold the canonical texts of
/// `t1` and `t2`, the store's listing order — creation text descending —
/// reflects time: a row listed earlier was created no earlier than one
/// listed later. The premises on the two texts are what the formatter
/// guarantees of the texts it returns.
pub proof fn lemma_listing_order_reflects_time(
    a: Seq<SqlValView>,
    b: Seq<SqlValView>,
    t1: i64,
    t2: i64,
)
    requires
        created_desc(a, b),
        a[6] == SqlValView::Text(rfc3339_of(t1)),
        b[6] == SqlValView::Text(rfc3339_of(t2)),
        ts_in_range(t1),
        ts_in_range(t2),
        ascii_chars(rfc3339_of(t1)),
        ascii_chars(rfc3339_of(t2)),
        parsed_ts(rfc3339_of(t1)) == Some(t1),
        parsed_ts(rfc3339_of(t2)) == Some(t2),
        t1 <= t2 ==> lex_le(rfc3339_of(t1), rfc3339_of(t2)),
    ensures
        t2 <= t1,
{
    lemma_text_order_reflects_time(t1, t2);
}

/// Law: saving a record under an existing id never changes the row's id,
/// its stored path or its creation stamp — the statement touches neither the
/// path cell nor the created-at cell — and a later lookup of the same id
/// reads back exactly the update stamp that was saved. The premise on
/// `parsed_ts` is what the formatter guarantees of the canonical text it
/// writes.
pub proof fn lemma_update_preserves_identity(
    pre: Map<i64, Seq<SqlValView>>,
    post: Map<i64, Seq<SqlValView>>,
    saved: DatabaseMetadata,
    id: i64,
    m2: DatabaseMetadata,
)
    requires
        pre.dom().contains(id),
        post == pre.insert(id, record_cells_for_update(saved, pre[id])),
        parsed_ts(rfc3339_of(saved.updated_at)) == Some(saved.updated_at),
        record_matches(m2, id, post[id]),
    ensures
        post.dom().contains(id),
        post[id][1] == pre[id][1],
        post[id][6] == pre[id][6],
        m2.id == Some(id),
        m2.updated_at == saved.updated_at,
{
    assert(post[id] == record_cells_for_update(saved, pre[id]));
    assert(post[id][7] == record_cells(saved)[7]);
    assert(record_cells(saved)[7] == SqlValView::Text(rfc3339_of(saved.updated_at)));
}

/// The engine-error text for a stored row this library did not write.
fn shape_error() -> (r: CatalogError)
    ensures
        r is Engine,
{
    CatalogError::Engine(String::from_str("stored catalog row has an unexpected shape"))
}

/// Decodes one stored row back into a record. Exactly the rows of the shape
/// this library writes decode; a row whose stamp texts do not parse as the
/// recognized date-time form fails loudly with `MalformedStoredTimestamp`.
pub fn decode_record(id: i64, cells: &Vec<SqlValue>) -> (r: Result<DatabaseMetadata, CatalogError>)
    ensures
        r matches Ok(m) ==> record_matches(m, id, cells_view(cells@)),
        row_shape_ok(cells_view(cells@)) && row_stamps_ok(cells_view(cells@)) ==> r is Ok,
        !row_shape_ok(cells_view(cells@)) ==> (r matches Err(e) && e is Engine),
        row_shape_ok(cells_view(cells@)) && !row_stamps_ok(cells_view(cells@)) ==> r == Err::<
            DatabaseMetadata,
            CatalogError,
        >(CatalogError::MalformedStoredTimestamp),
{
    if cells.len() != 8 {
        return Err(shape_error());
    }
    let name: String = match &cells[0] {
        SqlValue::Text(s) => s.clone(),
        _ => {
            return Err(shape_error());
        },
    };
    let path: String = match &cells[1] {
        SqlValue::Text(s) => s.clone(),
        _ => {
            return Err(shape_error());
        },
    };
    let size: i64 = match &cells[2] {
        SqlValue::Integer(v) => *v,
        _ => {
            return Err(shape_error());
        },
    };
    let table_count: i32 = match &cells[3] {
        SqlValue::Integer(v) => {
            if *v < -0x8000_0000i64 || *v > 0x7fff_ffffi64 {
                return Err(shape_error());
            }
            *v as i32
        },
        _ => {
            return Err(shape_error());
        },
    };
    let is_favorite: bool = match &cells[4] {
        SqlValue::Integer(v) => *v != 0,
        _ => {
            return Err(shape_error());
        },
    };
    let notes: Option<String> = match &cells[5] {
        SqlValue::Null => None,
        SqlValue::Text(s) => Some(s.clone()),
        _ => {
            return Err(shape_error());
        },
    };
    let created_text: &String = match &cells[6] {
        SqlValue::Text(s) => s,
        _ => {
            return Err(shape_error());
        },
    };
    let updated_text: &String = match &cells[7] {
        SqlValue::Text(s) => s,
        _ => {
            return Err(shape_error());
        },
    };
    let created_at: i64 = match DbDateTime::parse(created_text.as_str()) {
        Some(d) => d.secs,
        None => {
            return Err(CatalogError::MalformedStoredTimestamp);
        },
    };
    let updated_at: i64 = match DbDateTime::parse(updated_text.as_str()) {
        Some(d) => d.secs,
        None => {
            return Err(CatalogError::MalformedStoredTimestamp);
        },
    };
    Ok(DatabaseMetadata {
        id: Some(id),
        name,
        path,
        size,
        table_count,
        is_favorite,
        notes,
        created_at,
        updated_at,
    })
}

} // verus!

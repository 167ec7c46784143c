//! The record store: catalog entries, free-form keywords, and the
//! many-to-many association between them.

use vstd::prelude::*;
use vstd::std_specs::cmp::PartialEqSpec;
use crate::store::{db_execute, db_exists, db_query, Db, Error, SqlValue};
use crate::text::{dec_digits, find_char, first_occurrence, lemma_first_occurrence, u64_to_dec, i64_to_dec};

verus! {

/// One catalog entry. An absent id means the record was never persisted;
/// an id is assigned exactly once, at the first successful insert.
#[derive(Debug)]
pub struct Music {
    id: Option<i32>,
    pub title: String,
    pub source: String,
    pub composer: Option<String>,
    pub arranger: Option<String>,
    pub notes: Option<String>,
    pub runtime: Option<u16>,
}

/// A stored label: an optional category and a required keyword, which
/// together form the natural key. The id only records persistence state and
/// never takes part in equality.
#[derive(Debug)]
pub struct Keyword {
    id: Option<i32>,
    pub category: Option<String>,
    pub keyword: String,
}

/// The mathematical model of a record: each field as a plain value.
pub struct MusicModel {
    pub id: Option<int>,
    pub title: Seq<char>,
    pub source: Seq<char>,
    pub composer: Option<Seq<char>>,
    pub arranger: Option<Seq<char>>,
    pub notes: Option<Seq<char>>,
    pub runtime: Option<int>,
}

/// The view of an optional string.
pub open spec fn view_opt_str(o: Option<String>) -> Option<Seq<char>> {
    match o {
        Some(s) => Some(s@),
        None => None,
    }
}

impl View for Music {
    type V = MusicModel;

    closed spec fn view(&self) -> MusicModel {
        MusicModel {
            id: match self.id {
                Some(i) => Some(i as int),
                None => None,
            },
            title: self.title@,
            source: self.source@,
            composer: view_opt_str(self.composer),
            arranger: view_opt_str(self.arranger),
            notes: view_opt_str(self.notes),
            runtime: match self.runtime {
                Some(r) => Some(r as int),
                None => None,
            },
        }
    }
}

/// Reads an optional integer cell into an optional record id; an
/// out-of-range or textual cell means the row is not ours.
pub open spec fn cell_opt_i32(v: SqlValue) -> Option<Option<int>> {
    match v {
        SqlValue::Null => Some(None),
        SqlValue::Int(i) => if i32::MIN <= i <= i32::MAX {
            Some(Some(i as int))
        } else {
            None
        },
        SqlValue::Text(_) => None,
    }
}

/// Reads a required text cell.
pub open spec fn cell_text(v: SqlValue) -> Option<Seq<char>> {
    match v {
        SqlValue::Text(s) => Some(s@),
        SqlValue::Null => None,
        SqlValue::Int(_) => None,
    }
}

/// Reads an optional text cell.
pub open spec fn cell_opt_text(v: SqlValue) -> Option<Option<Seq<char>>> {
    match v {
        SqlValue::Text(s) => Some(Some(s@)),
        SqlValue::Null => Some(None),
        SqlValue::Int(_) => None,
    }
}

/// Reads an optional runtime cell, in seconds.
pub open spec fn cell_opt_u16(v: SqlValue) -> Option<Option<int>> {
    match v {
        SqlValue::Null => Some(None),
        SqlValue::Int(i) => if 0 <= i <= u16::MAX {
            Some(Some(i as int))
        } else {
            None
        },
        SqlValue::Text(_) => None,
    }
}

/// The record a well-shaped catalog row denotes: id, title, source,
/// composer, arranger, notes, runtime, in column order.
pub open spec fn spec_from_row(row: Seq<SqlValue>) -> Option<MusicModel> {
    if row.len() != 7 {
        None
    } else {
        match (cell_opt_i32(row[0]), cell_text(row[1]), cell_text(row[2]), cell_opt_text(row[3]),
        cell_opt_text(row[4]), cell_opt_text(row[5]), cell_opt_u16(row[6])) {
            (
                Some(id),
                Some(title),
                Some(source),
                Some(composer),
                Some(arranger),
                Some(notes),
                Some(runtime),
            ) => Some(MusicModel { id, title, source, composer, arranger, notes, runtime }),
            _ => None,
        }
    }
}

impl Music {
    /// The record's persisted identity, if it has one.
    pub open spec fn spec_id(&self) -> Option<int> {
        self@.id
    }

    /// Decodes one returned row into a record, in column order; a row of the
    /// wrong shape yields nothing.
    pub fn from_row(row: &Vec<SqlValue>) -> (r: Option<Music>)
        ensures
            match r {
                Some(m) => spec_from_row(row@) == Some(m@),
                None => spec_from_row(row@) is None,
            },
    {
        if row.len() != 7 {
            return None;
        }
        let id: Option<i32> = match &row[0] {
            SqlValue::Null => None,
            SqlValue::Int(i) => {
                if *i < -0x8000_0000i64 || *i > 0x7fff_ffffi64 {
                    return None;
                }
                Some(*i as i32)
            },
            SqlValue::Text(_) => {
                return None;
            },
        };
        let title: String = match &row[1] {
            SqlValue::Text(s) => s.clone(),
            _ => {
                return None;
            },
        };
        let source: String = match &row[2] {
            SqlValue::Text(s) => s.clone(),
            _ => {
                return None;
            },
        };
        let composer: Option<String> = match &row[3] {
            SqlValue::Text(s) => Some(s.clone()),
            SqlValue::Null => None,
            _ => {
                return None;
            },
        };
        let arranger: Option<String> = match &row[4] {
            SqlValue::Text(s) => Some(s.clone()),
            SqlValue::Null => None,
            _ => {
                return None;
            },
        };
        let notes: Option<String> = match &row[5] {
            SqlValue::Text(s) => Some(s.clone()),
            SqlValue::Null => None,
            _ => {
                return None;
            },
        };
        let runtime: Option<u16> = match &row[6] {
            SqlValue::Null => None,
            SqlValue::Int(i) => {
                if *i < 0i64 || *i > 0xffffi64 {
                    return None;
                }
                Some(*i as u16)
            },
            SqlValue::Text(_) => {
                return None;
            },
        };
        Some(Music { id, title, source, composer, arranger, notes, runtime })
    }

    /// A fresh, never-persisted record with blank fields.
    pub fn new() -> (r: Music)
        ensures
            r@.id is None,
            r@.title == Seq::<char>::empty(),
            r@.source == Seq::<char>::empty(),
            r@.composer is None,
            r@.arranger is None,
            r@.notes is None,
            r@.runtime is None,
    {
        proof {
            reveal_strlit("");
        }
        Music {
            id: None,
            title: "".to_owned(),
            source: "".to_owned(),
            composer: None,
            arranger: None,
            notes: None,
            runtime: None,
        }
    }

    /// A blank record that stands for the already-persisted row with the
    /// given id.
    pub fn new_with_id(id: i32) -> (r: Music)
        ensures
            r@.id == Some(id as int),
            r@.title == Seq::<char>::empty(),
            r@.source == Seq::<char>::empty(),
            r@.composer is None,
            r@.arranger is None,
            r@.notes is None,
            r@.runtime is None,
    {
        let mut m = Music::new();
        m.id = Some(id);
        m
    }

    /// The record's persisted identity, if it has one.
    pub fn id(&self) -> (r: Option<i32>)
        ensures
            match r {
                Some(i) => self.spec_id() == Some(i as int),
                None => self.spec_id() is None,
            },
    {
        self.id
    }

    /// Whether the record has been persisted.
    pub fn is_db_entry(&self) -> (r: bool)
        ensures
            r == (self.spec_id() is Some),
    {
        self.id.is_some()
    }

    /// A fresh filter builder over the catalog table.
    pub fn query() -> (r: crate::query::MusicQuery)
        ensures
            r@ == Seq::<(crate::query::Column, crate::query::CmpModel)>::empty(),
    {
        crate::query::MusicQuery::new()
    }

    /// Every stored record, unconditionally.
    pub fn list_all(db: &Db) -> (r: Result<Vec<Music>, Error>)
        ensures
            r matches Err(e) ==> e is Storage,
    {
        let no_params: Vec<SqlValue> = Vec::new();
        match db_query(db, "SELECT * FROM music;", &no_params) {
            Ok(rows) => crate::query::rows_to_music(rows),
            Err(e) => Err(e),
        }
    }

    /// The record with the given id, if any.
    pub fn by_id(db: &Db, id: i32) -> (r: Result<Option<Music>, Error>)
        ensures
            r matches Err(e) ==> e is Storage,
    {
        Self::query().id_eq(id).run_one(db)
    }

    /// Every record with exactly the given title.
    pub fn by_title(db: &Db, title: &str) -> (r: Result<Vec<Music>, Error>)
        ensures
            r matches Err(e) ==> e is Storage,
    {
        Self::query().title_eq(title).run(db)
    }

    /// Every record with exactly the given source.
    pub fn by_source(db: &Db, source: &str) -> (r: Result<Vec<Music>, Error>)
        ensures
            r matches Err(e) ==> e is Storage,
    {
        Self::query().source_eq(source).run(db)
    }

    /// Every record with exactly the given composer.
    pub fn by_composer(db: &Db, composer: &str) -> (r: Result<Vec<Music>, Error>)
        ensures
            r matches Err(e) ==> e is Storage,
    {
        Self::query().composer_eq(composer).run(db)
    }

    /// Every record with exactly the given arranger.
    pub fn by_arranger(db: &Db, arranger: &str) -> (r: Result<Vec<Music>, Error>)
        ensures
            r matches Err(e) ==> e is Storage,
    {
        Self::query().arranger_eq(arranger).run(db)
    }

    /// Every record whose notes contain the given string.
    pub fn notes_contains(db: &Db, keyword: &str) -> (r: Result<Vec<Music>, Error>)
        ensures
            r matches Err(e) ==> e is Storage,
    {
        Self::query().notes_contains(keyword).run(db)
    }

    /// Every distinct title.
    pub fn list_titles(db: &Db) -> (r: Result<Vec<String>, Error>)
        ensures
            r matches Err(e) ==> e is Storage,
    {
        let no_params: Vec<SqlValue> = Vec::new();
        match db_query(db, "SELECT DISTINCT title FROM music;", &no_params) {
            Ok(rows) => rows_to_strings(rows),
            Err(e) => Err(e),
        }
    }

    /// Every distinct composer. Reading fails when a record without a
    /// composer contributes a null cell, as reading a typed column does.
    pub fn list_composers(db: &Db) -> (r: Result<Vec<String>, Error>)
        ensures
            r matches Err(e) ==> e is Storage,
    {
        let no_params: Vec<SqlValue> = Vec::new();
        match db_query(db, "SELECT DISTINCT composer FROM music;", &no_params) {
            Ok(rows) => rows_to_strings(rows),
            Err(e) => Err(e),
        }
    }

    /// Every distinct arranger, with the same null-cell behaviour as the
    /// composer listing.
    pub fn list_arrangers(db: &Db) -> (r: Result<Vec<String>, Error>)
        ensures
            r matches Err(e) ==> e is Storage,
    {
        let no_params: Vec<SqlValue> = Vec::new();
        match db_query(db, "SELECT DISTINCT arranger FROM music;", &no_params) {
            Ok(rows) => rows_to_strings(rows),
            Err(e) => Err(e),
        }
    }

    /// Every distinct source.
    pub fn list_sources(db: &Db) -> (r: Result<Vec<String>, Error>)
        ensures
            r matches Err(e) ==> e is Storage,
    {
        let no_params: Vec<SqlValue> = Vec::new();
        match db_query(db, "SELECT DISTINCT source FROM music;", &no_params) {
            Ok(rows) => rows_to_strings(rows),
            Err(e) => Err(e),
        }
    }

    /// The record's associated keywords: nothing at all for an unpersisted
    /// record — distinct from an empty set — and the full association list
    /// otherwise.
    pub fn keywords(&self, db: &Db) -> (r: Result<Option<Vec<Keyword>>, Error>)
        ensures
            self@.id is None ==> (r matches Ok(o) && o is None),
            self@.id is Some && r is Ok ==> r->Ok_0 is Some,
            r matches Err(e) ==> e is Storage,
    {
        if !self.is_db_entry() {
            return Ok(None);
        }
        let mut params: Vec<SqlValue> = Vec::new();
        params.push(opt_i32_param(&self.id));
        let rows = match db_query(
            db,
            "SELECT k.id, k.category, k.keyword FROM keywords k INNER JOIN music_keywords mk ON k.id = mk.kid WHERE mk.mid = ?1;",
            &params,
        ) {
            Ok(rows) => rows,
            Err(e) => {
                return Err(e);
            },
        };
        match rows_to_keywords(rows) {
            Ok(list) => Ok(Some(list)),
            Err(e) => Err(e),
        }
    }

    /// Stores the record: an unpersisted one is inserted and takes the
    /// freshly assigned id — a one-way transition — while a persisted one
    /// has its row updated by id. The other fields in memory never change.
    pub fn insert(&mut self, db: &Db) -> (r: Result<(), Error>)
        ensures
            final(self)@.title == old(self)@.title,
            final(self)@.source == old(self)@.source,
            final(self)@.composer == old(self)@.composer,
            final(self)@.arranger == old(self)@.arranger,
            final(self)@.notes == old(self)@.notes,
            final(self)@.runtime == old(self)@.runtime,
            old(self)@.id is Some ==> final(self)@.id == old(self)@.id,
            old(self)@.id is None && r is Ok ==> final(self)@.id is Some,
            old(self)@.id is None && r is Err ==> final(self)@.id is None,
            r matches Err(e) ==> e is Storage,
    {
        if !self.is_db_entry() {
            let params = record_params(self);
            match db_execute(
                db,
                "INSERT INTO music (title, composer, arranger, source, notes, runtime) VALUES (?1, ?2, ?3, ?4, ?5, ?6);",
                &params,
            ) {
                Ok(_) => {},
                Err(e) => {
                    return Err(e);
                },
            }
            let no_params: Vec<SqlValue> = Vec::new();
            let rows = match db_query(db, "SELECT max(id) FROM music LIMIT 1;", &no_params) {
                Ok(rows) => rows,
                Err(e) => {
                    return Err(e);
                },
            };
            match read_back_id(&rows) {
                Ok(id) => {
                    self.id = Some(id);
                    Ok(())
                },
                Err(e) => Err(e),
            }
        } else {
            let mut params = record_params(self);
            params.push(opt_i32_param(&self.id));
            match db_execute(
                db,
                "UPDATE music SET title = ?1, composer = ?2, arranger = ?3, source = ?4, notes = ?5, runtime = ?6 WHERE id = ?7;",
                &params,
            ) {
                Ok(_) => Ok(()),
                Err(e) => Err(e),
            }
        }
    }

    /// Attaches a keyword to this record, storing the keyword first when its
    /// natural key is absent. A record that was never persisted cannot take
    /// keywords. Attaching an already-attached keyword changes nothing.
    pub fn add_keyword(&mut self, db: &Db, key: &mut Keyword) -> (r: Result<(), Error>)
        ensures
            final(self)@ == old(self)@,
            final(key)@.category == old(key)@.category,
            final(key)@.keyword == old(key)@.keyword,
            old(self)@.id is None ==> (r matches Err(e) && e is NotPersisted && final(key)@ == old(key)@),
            old(self)@.id is Some && r is Err ==> r->Err_0 is Storage,
            r is Ok ==> final(key)@.id is Some,
    {
        if !self.is_db_entry() {
            return Err(Error::NotPersisted);
        }
        let present = match key.is_stored(db) {
            Ok(b) => b,
            Err(e) => {
                return Err(e);
            },
        };
        if !present {
            match key.insert_update(db) {
                Ok(_) => {},
                Err(e) => {
                    return Err(e);
                },
            }
        }
        if !key.is_db_entry() {
            match key.update_self(db) {
                Ok(_) => {},
                Err(e) => {
                    return Err(e);
                },
            }
        }
        if !key.is_db_entry() {
            return Err(Error::Storage("the keyword's id could not be resolved".to_owned()));
        }
        let params = two_id_params(&self.id, &key.id);
        match db_execute(
            db,
            "INSERT INTO music_keywords VALUES (?1, ?2) ON CONFLICT DO NOTHING;",
            &params,
        ) {
            Ok(_) => Ok(()),
            Err(e) => Err(e),
        }
    }

    /// Detaches a keyword from this record. A record with no persisted
    /// keyword set, or a keyword that is not attached, leaves the store
    /// untouched.
    pub fn remove_keyword(&mut self, db: &Db, key: &mut Keyword) -> (r: Result<(), Error>)
        ensures
            final(self)@ == old(self)@,
            final(key)@.category == old(key)@.category,
            final(key)@.keyword == old(key)@.keyword,
            old(self)@.id is None ==> r is Ok && final(key)@ == old(key)@,
            r matches Err(e) ==> e is Storage,
    {
        let attached = match self.keywords(db) {
            Ok(Some(list)) => keyword_in(&list, key),
            Ok(None) => {
                return Ok(());
            },
            Err(e) => {
                return Err(e);
            },
        };
        if attached {
            if !key.is_db_entry() {
                match key.update_self(db) {
                    Ok(_) => {},
                    Err(e) => {
                        return Err(e);
                    },
                }
            }
            let params = two_id_params(&self.id, &key.id);
            match db_execute(
                db,
                "DELETE FROM music_keywords WHERE mid = ?1 AND kid = ?2;",
                &params,
            ) {
                Ok(_) => Ok(()),
                Err(e) => Err(e),
            }
        } else {
            Ok(())
        }
    }

    /// Reshapes the record's association set to the desired list: keywords
    /// in the list but not attached are attached, attached keywords not in
    /// the list are detached — by natural-key equality. This is best-effort,
    /// not transactional: a failure partway leaves earlier changes applied.
    pub fn update_keywords(&mut self, db: &Db, keys: &Vec<Keyword>) -> (r: Result<(), Error>)
        ensures
            final(self)@ == old(self)@,
            old(self)@.id is None ==> (r matches Err(e) && e is NotPersisted),
            old(self)@.id is Some && r is Err ==> r->Err_0 is Storage,
    {
        let current = match self.keywords(db) {
            Ok(Some(list)) => list,
            Ok(None) => {
                return Err(Error::NotPersisted);
            },
            Err(e) => {
                return Err(e);
            },
        };
        let mut i: usize = 0;
        while i < keys.len()
            invariant
                self@ == old(self)@,
                self@.id is Some,
            decreases keys@.len() - i,
        {
            if !keyword_in(&current, &keys[i]) {
                let mut key = keys[i].clone();
                match self.add_keyword(db, &mut key) {
                    Ok(_) => {},
                    Err(e) => {
                        return Err(e);
                    },
                }
            }
            i = i + 1;
        }
        let mut j: usize = 0;
        while j < current.len()
            invariant
                self@ == old(self)@,
                self@.id is Some,
            decreases current@.len() - j,
        {
            if !keyword_in(keys, &current[j]) {
                let mut key = current[j].clone();
                match self.remove_keyword(db, &mut key) {
                    Ok(_) => {},
                    Err(e) => {
                        return Err(e);
                    },
                }
            }
            j = j + 1;
        }
        Ok(())
    }

    /// Stores the record, then attaches every given keyword, storing
    /// keywords the store does not know yet. On success every keyword
    /// handed back carries a valid id.
    pub fn insert_with_keywords(&mut self, db: &Db, keys: &mut Vec<Keyword>) -> (r: Result<
        (),
        Error,
    >)
        ensures
            final(self)@.title == old(self)@.title,
            final(self)@.source == old(self)@.source,
            final(self)@.composer == old(self)@.composer,
            final(self)@.arranger == old(self)@.arranger,
            final(self)@.notes == old(self)@.notes,
            final(self)@.runtime == old(self)@.runtime,
            old(self)@.id is Some ==> final(self)@.id == old(self)@.id,
            r is Ok ==> final(self)@.id is Some,
            r is Ok ==> final(keys)@.len() == old(keys)@.len() && forall|j: int|
                0 <= j < old(keys)@.len() ==> {
                    &&& (#[trigger] final(keys)@[j])@.category == old(keys)@[j]@.category
                    &&& final(keys)@[j]@.keyword == old(keys)@[j]@.keyword
                    &&& final(keys)@[j]@.id is Some
                },
            r is Err ==> final(keys)@ == old(keys)@,
            r matches Err(e) ==> e is Storage,
    {
        match self.insert(db) {
            Ok(_) => {},
            Err(e) => {
                return Err(e);
            },
        }
        let mut resolved: Vec<Keyword> = Vec::new();
        let mut i: usize = 0;
        while i < keys.len()
            invariant
                self@.id is Some,
                self@.title == old(self)@.title,
                self@.source == old(self)@.source,
                self@.composer == old(self)@.composer,
                self@.arranger == old(self)@.arranger,
                self@.notes == old(self)@.notes,
                self@.runtime == old(self)@.runtime,
                old(self)@.id is Some ==> self@.id == old(self)@.id,
                keys@ == old(keys)@,
                0 <= i <= keys@.len(),
                resolved@.len() == i,
                forall|j: int|
                    0 <= j < i ==> (#[trigger] resolved@[j])@.category == keys@[j]@.category
                        && resolved@[j]@.keyword == keys@[j]@.keyword && resolved@[j]@.id is Some,
            decreases keys@.len() - i,
        {
            let mut key = keys[i].clone();
            match self.add_keyword(db, &mut key) {
                Ok(_) => {},
                Err(e) => {
                    return Err(e);
                },
            }
            resolved.push(key);
            i = i + 1;
        }
        *keys = resolved;
        Ok(())
    }

    /// Deletes the record's row by id, consuming the value: it must not be
    /// used afterwards.
    pub fn delete(self, db: &Db) -> (r: Result<(), Error>)
        ensures
            r matches Err(e) ==> e is Storage,
    {
        let mut params: Vec<SqlValue> = Vec::new();
        params.push(opt_i32_param(&self.id));
        match db_execute(db, "DELETE FROM music WHERE id = ?1;", &params) {
            Ok(_) => Ok(()),
            Err(e) => Err(e),
        }
    }

    /// Every record associated with any of the given keywords. An empty
    /// keyword list short-circuits to an empty result without querying, and
    /// keywords the store does not know contribute nothing.
    pub fn by_keywords(db: &Db, keywords: &Vec<Keyword>) -> (r: Result<Vec<Music>, Error>)
        ensures
            keywords@.len() == 0 ==> (r matches Ok(v) && v@.len() == 0),
            r matches Err(e) ==> e is Storage,
    {
        if keywords.len() == 0 {
            return Ok(Vec::new());
        }
        let ids = match Keyword::fetch_ids(db, keywords) {
            Ok(ids) => ids,
            Err(e) => {
                return Err(e);
            },
        };
        let q = by_keywords_query(&ids);
        let no_params: Vec<SqlValue> = Vec::new();
        match db_query(db, q.as_str(), &no_params) {
            Ok(rows) => crate::query::rows_to_music(rows),
            Err(e) => Err(e),
        }
    }
}

/// The association join that fetches every record attached to one of the
/// given keyword ids.
pub open spec fn spec_by_keywords_query(ids: Seq<i64>) -> Seq<char> {
    "SELECT m.id, m.title, m.source, m.composer, m.arranger, m.notes, m.runtime FROM music m INNER JOIN music_keywords mk ON m.id == mk.mid WHERE mk.kid IN ("@
        + spec_ids_join(ids) + ");"@
}

/// Renders the association join for an id list.
fn by_keywords_query(ids: &Vec<i64>) -> (r: String)
    ensures
        r@ == spec_by_keywords_query(ids@),
{
    let mut q =
        "SELECT m.id, m.title, m.source, m.composer, m.arranger, m.notes, m.runtime FROM music m INNER JOIN music_keywords mk ON m.id == mk.mid WHERE mk.kid IN (".to_owned();
    q.append(ids_join(ids).as_str());
    q.append(");");
    proof {
        assert(q@ =~= spec_by_keywords_query(ids@));
    }
    q
}

proof fn lemma_fetch_literals()
    ensures
        !crate::text::contains_char(" OR "@, '?'),
        !crate::text::contains_char("category IS "@, '?'),
        !crate::text::contains_char(" AND keyword == "@, '?'),
        crate::text::count_char("?"@, '?') == 1,
{
    reveal_strlit(" OR ");
    reveal_strlit("category IS ");
    reveal_strlit(" AND keyword == ");
    reveal_strlit("?");
    assert(("?"@).drop_last().len() == 0);
    assert(crate::text::count_char(("?"@).drop_last(), '?') == 0);
    assert(("?"@).last() == '?');
}

/// Law: the natural-key lookup for `n` keywords binds exactly `2 n`
/// parameters — a category and a keyword per entry — and its rendered
/// predicate holds exactly one placeholder for each, indices contiguous
/// from one by construction.
pub proof fn lemma_fetch_conds_placeholders(n: nat)
    ensures
        crate::text::count_char(Keyword::spec_fetch_conds(n), '?') == 2 * n,
    decreases n,
{
    lemma_fetch_literals();
    if n == 0 {
        assert(Keyword::spec_fetch_conds(0) =~= Seq::<char>::empty());
        assert(crate::text::count_char(Seq::<char>::empty(), '?') == 0);
    } else {
        lemma_fetch_conds_placeholders((n - 1) as nat);
        let prev = Keyword::spec_fetch_conds((n - 1) as nat);
        let sep: Seq<char> = if n > 1 {
            " OR "@
        } else {
            Seq::<char>::empty()
        };
        let d1 = dec_digits((2 * n - 1) as nat);
        let d2 = dec_digits(2 * n);
        crate::text::lemma_dec_digits_no_qmark((2 * n - 1) as nat);
        crate::text::lemma_dec_digits_no_qmark(2 * n);
        crate::text::lemma_count_char_absent(sep, '?');
        crate::text::lemma_count_char_absent("category IS "@, '?');
        crate::text::lemma_count_char_absent(" AND keyword == "@, '?');
        crate::text::lemma_count_char_concat(prev, sep, '?');
        crate::text::lemma_count_char_concat(prev + sep, "category IS "@, '?');
        crate::text::lemma_count_char_concat(prev + sep + "category IS "@, "?"@, '?');
        crate::text::lemma_count_char_concat(prev + sep + "category IS "@ + "?"@, d1, '?');
        crate::text::lemma_count_char_concat(
            prev + sep + "category IS "@ + "?"@ + d1,
            " AND keyword == "@,
            '?',
        );
        crate::text::lemma_count_char_concat(
            prev + sep + "category IS "@ + "?"@ + d1 + " AND keyword == "@,
            "?"@,
            '?',
        );
        crate::text::lemma_count_char_concat(
            prev + sep + "category IS "@ + "?"@ + d1 + " AND keyword == "@ + "?"@,
            d2,
            '?',
        );
    }
}

/// The decimal renderings of the given ids, joined by commas.
pub open spec fn spec_ids_join(ids: Seq<i64>) -> Seq<char>
    decreases ids.len(),
{
    if ids.len() == 0 {
        Seq::empty()
    } else {
        spec_ids_join(ids.drop_last()) + (if ids.len() > 1 {
            ","@
        } else {
            Seq::<char>::empty()
        }) + crate::text::int_dec(ids.last() as int)
    }
}

/// Renders a comma-separated id list.
fn ids_join(ids: &Vec<i64>) -> (r: String)
    ensures
        r@ == spec_ids_join(ids@),
{
    let mut out = String::new();
    let mut i: usize = 0;
    proof {
        assert(ids@.take(0int) =~= Seq::<i64>::empty());
        assert(out@ =~= spec_ids_join(ids@.take(0int)));
    }
    while i < ids.len()
        invariant
            0 <= i <= ids@.len(),
            out@ == spec_ids_join(ids@.take(i as int)),
        decreases ids@.len() - i,
    {
        if i > 0 {
            out.append(",");
        }
        out.append(i64_to_dec(ids[i]).as_str());
        proof {
            assert(ids@.take(i + 1).drop_last() =~= ids@.take(i as int));
            assert(ids@.take(i + 1).last() == ids@[i as int]);
            assert(out@ =~= spec_ids_join(ids@.take(i + 1)));
        }
        i = i + 1;
    }
    proof {
        assert(ids@.take(ids@.len() as int) =~= ids@);
    }
    out
}

/// The canonical textual form of a keyword: `category:keyword` when a
/// category is present, the bare keyword otherwise.
pub open spec fn spec_keyword_text(cat: Option<Seq<char>>, kw: Seq<char>) -> Seq<char> {
    match cat {
        Some(c) => c + ":"@ + kw,
        None => kw,
    }
}

/// The category the canonical grammar reads out of a string: everything
/// before the first colon, or nothing when there is no colon.
pub open spec fn spec_parse_category(s: Seq<char>) -> Option<Seq<char>> {
    match first_occurrence(s, ':') {
        Some(i) => Some(s.take(i)),
        None => None,
    }
}

/// The keyword part the canonical grammar reads out of a string: everything
/// after the first colon, or the whole string when there is no colon.
pub open spec fn spec_parse_keyword(s: Seq<char>) -> Seq<char> {
    match first_occurrence(s, ':') {
        Some(i) => s.skip(i + 1),
        None => s,
    }
}

/// Law: parsing a string by the canonical grammar and rendering the result
/// back reproduces the string exactly, whatever it holds — the split is on
/// the first colon only, so later colons stay inside the keyword part.
pub proof fn lemma_keyword_round_trip(s: Seq<char>)
    ensures
        spec_keyword_text(spec_parse_category(s), spec_parse_keyword(s)) == s,
{
    lemma_first_occurrence(s, ':');
    match first_occurrence(s, ':') {
        Some(i) => {
            assert(s[i] == ':');
            reveal_strlit(":");
            assert(spec_keyword_text(Some(s.take(i)), s.skip(i + 1)) =~= s);
        },
        None => {},
    }
}

/// The mathematical model of a keyword: the natural key as plain character
/// sequences, plus the persistence state.
pub struct KeywordModel {
    pub id: Option<int>,
    pub category: Option<Seq<char>>,
    pub keyword: Seq<char>,
}

impl View for Keyword {
    type V = KeywordModel;

    closed spec fn view(&self) -> KeywordModel {
        KeywordModel {
            id: match self.id {
                Some(i) => Some(i as int),
                None => None,
            },
            category: view_opt_str(self.category),
            keyword: self.keyword@,
        }
    }
}

impl Keyword {
    /// The keyword's persisted identity, if it has one.
    pub open spec fn spec_id(&self) -> Option<int> {
        self@.id
    }

    /// The category as a character sequence, if present.
    pub open spec fn spec_category(&self) -> Option<Seq<char>> {
        self@.category
    }

    /// The keyword part as a character sequence.
    pub open spec fn spec_keyword(&self) -> Seq<char> {
        self@.keyword
    }

    /// Builds a keyword from its canonical text form: the part before the
    /// first colon is the category; with no colon there is no category.
    pub fn from_str(s: &str) -> (r: Keyword)
        ensures
            r.spec_id() is None,
            r.spec_category() == spec_parse_category(s@),
            r.spec_keyword() == spec_parse_keyword(s@),
    {
        let n = s.unicode_len();
        match find_char(s, ':') {
            Some(i) => {
                proof {
                    crate::text::lemma_first_occurrence_is(s@, ':', i as int);
                }
                let cat = s.substring_char(0, i).to_owned();
                let kw = s.substring_char(i + 1, n).to_owned();
                proof {
                    assert(cat@ =~= s@.take(i as int));
                    assert(kw@ =~= s@.skip(i + 1));
                }
                Keyword { id: None, category: Some(cat), keyword: kw }
            },
            None => {
                proof {
                    lemma_first_occurrence(s@, ':');
                }
                Keyword { id: None, category: None, keyword: s.to_owned() }
            },
        }
    }

    /// Builds a keyword from its canonical text form.
    pub fn new(keyword: &str) -> (r: Keyword)
        ensures
            r.spec_id() is None,
            r.spec_category() == spec_parse_category(keyword@),
            r.spec_keyword() == spec_parse_keyword(keyword@),
    {
        Keyword::from_str(keyword)
    }

    /// The canonical text form: `category:keyword`, or the bare keyword.
    pub fn to_string(&self) -> (r: String)
        ensures
            r@ == spec_keyword_text(self.spec_category(), self.spec_keyword()),
    {
        match &self.category {
            None => self.keyword.clone(),
            Some(c) => {
                let mut s = c.clone();
                s.append(":");
                s.append(self.keyword.as_str());
                s
            },
        }
    }

    /// Whether the keyword has been persisted.
    pub fn is_db_entry(&self) -> (r: bool)
        ensures
            r == (self.spec_id() is Some),
    {
        self.id.is_some()
    }
}

impl PartialEq for Keyword {
    /// Equality is on the natural key — category and keyword — never on the
    /// id, so persistence state does not affect it.
    fn eq(&self, other: &Keyword) -> (r: bool) {
        let cat_eq = match &self.category {
            None => other.category.is_none(),
            Some(a) => match &other.category {
                Some(b) => *a == *b,
                None => false,
            },
        };
        cat_eq && self.keyword == other.keyword
    }
}

impl vstd::std_specs::cmp::PartialEqSpecImpl for Keyword {
    open spec fn obeys_eq_spec() -> bool {
        true
    }

    open spec fn eq_spec(&self, other: &Keyword) -> bool {
        self.spec_category() == other.spec_category() && self.spec_keyword()
            == other.spec_keyword()
    }
}

/// Law: two keywords built from the same text are equal whatever their
/// persistence state, because equality reads only the natural key.
pub proof fn lemma_keyword_eq_ignores_id(a: Keyword, b: Keyword)
    requires
        a.spec_category() == b.spec_category(),
        a.spec_keyword() == b.spec_keyword(),
    ensures
        a.eq_spec(&b),
{
}

/// The keyword a well-shaped keyword row denotes: id, category, keyword,
/// in column order.
pub open spec fn spec_kw_from_row(row: Seq<SqlValue>) -> Option<KeywordModel> {
    if row.len() != 3 {
        None
    } else {
        match (cell_opt_i32(row[0]), cell_opt_text(row[1]), cell_text(row[2])) {
            (Some(id), Some(category), Some(keyword)) => Some(
                KeywordModel { id, category, keyword },
            ),
            _ => None,
        }
    }
}

/// Whether two keyword models share a natural key — category and keyword,
/// id ignored.
pub open spec fn same_key(a: KeywordModel, b: KeywordModel) -> bool {
    a.category == b.category && a.keyword == b.keyword
}

/// Whether a list holds a keyword with the given natural key.
pub fn keyword_in(list: &Vec<Keyword>, k: &Keyword) -> (r: bool)
    ensures
        r == exists|i: int| 0 <= i < list@.len() && same_key((#[trigger] list@[i])@, k@),
{
    let mut i: usize = 0;
    while i < list.len()
        invariant
            0 <= i <= list@.len(),
            forall|j: int| 0 <= j < i ==> !same_key((#[trigger] list@[j])@, k@),
        decreases list@.len() - i,
    {
        if list[i] == *k {
            return true;
        }
        i = i + 1;
    }
    false
}

/// Whether a cell is the textual binding of the given string.
pub open spec fn is_text_cell(v: SqlValue, s: Seq<char>) -> bool {
    v matches SqlValue::Text(t) && t@ == s
}

/// Whether a cell is the binding of an optional string: its text, or null.
pub open spec fn is_opt_text_cell(v: SqlValue, o: Option<Seq<char>>) -> bool {
    match o {
        Some(s) => is_text_cell(v, s),
        None => v is Null,
    }
}

/// Whether a cell is the binding of an optional integer: its value, or
/// null.
pub open spec fn is_opt_int_cell(v: SqlValue, o: Option<int>) -> bool {
    match o {
        Some(n) => v matches SqlValue::Int(i) && i == n,
        None => v is Null,
    }
}

/// The model of an optional record id.
pub open spec fn view_opt_i32(o: Option<i32>) -> Option<int> {
    match o {
        Some(i) => Some(i as int),
        None => None,
    }
}

fn opt_text_param(o: &Option<String>) -> (r: SqlValue)
    ensures
        is_opt_text_cell(r, view_opt_str(*o)),
{
    match o {
        Some(s) => SqlValue::Text(s.clone()),
        None => SqlValue::Null,
    }
}

fn opt_i32_param(o: &Option<i32>) -> (r: SqlValue)
    ensures
        is_opt_int_cell(r, view_opt_i32(*o)),
{
    match o {
        Some(i) => SqlValue::Int(*i as i64),
        None => SqlValue::Null,
    }
}

fn opt_u16_param(o: &Option<u16>) -> (r: SqlValue)
    ensures
        is_opt_int_cell(
            r,
            match *o {
                Some(n) => Some(n as int),
                None => None,
            },
        ),
{
    match o {
        Some(n) => SqlValue::Int(*n as i64),
        None => SqlValue::Null,
    }
}

/// The parameter vector of a record's writable columns, in statement
/// order: title, composer, arranger, source, notes, runtime.
fn record_params(m: &Music) -> (r: Vec<SqlValue>)
    ensures
        r@.len() == 6,
        is_text_cell(r@[0], m@.title),
        is_opt_text_cell(r@[1], m@.composer),
        is_opt_text_cell(r@[2], m@.arranger),
        is_text_cell(r@[3], m@.source),
        is_opt_text_cell(r@[4], m@.notes),
        is_opt_int_cell(r@[5], m@.runtime),
{
    let mut params: Vec<SqlValue> = Vec::new();
    params.push(SqlValue::Text(m.title.clone()));
    params.push(opt_text_param(&m.composer));
    params.push(opt_text_param(&m.arranger));
    params.push(SqlValue::Text(m.source.clone()));
    params.push(opt_text_param(&m.notes));
    params.push(opt_u16_param(&m.runtime));
    params
}

/// The parameter vector of a keyword's natural key, in statement order:
/// category, keyword.
fn keyword_key_params(k: &Keyword) -> (r: Vec<SqlValue>)
    ensures
        r@.len() == 2,
        is_opt_text_cell(r@[0], k@.category),
        is_text_cell(r@[1], k@.keyword),
{
    let mut params: Vec<SqlValue> = Vec::new();
    params.push(opt_text_param(&k.category));
    params.push(SqlValue::Text(k.keyword.clone()));
    params
}

/// The parameter vector of an association row, in statement order: the
/// record's id, then the keyword's.
fn two_id_params(first: &Option<i32>, second: &Option<i32>) -> (r: Vec<SqlValue>)
    ensures
        r@.len() == 2,
        is_opt_int_cell(r@[0], view_opt_i32(*first)),
        is_opt_int_cell(r@[1], view_opt_i32(*second)),
{
    let mut params: Vec<SqlValue> = Vec::new();
    params.push(opt_i32_param(first));
    params.push(opt_i32_param(second));
    params
}

/// Decodes the id read back after an insert: the first cell of the first
/// row, owed exactly when that cell is an integer in the id range.
fn read_back_id(rows: &Vec<Vec<SqlValue>>) -> (r: Result<i32, Error>)
    ensures
        r is Ok <==> rows@.len() >= 1 && rows@[0]@.len() >= 1 && (rows@[0]@[0] matches
        SqlValue::Int(i) && i32::MIN <= i <= i32::MAX),
        r matches Ok(id) ==> rows@[0]@[0] == SqlValue::Int(id as i64),
        r matches Err(e) ==> e is Storage,
{
    if rows.len() == 0 {
        return Err(Error::Storage("the assigned id could not be read back".to_owned()));
    }
    let row = &rows[0];
    if row.len() == 0 {
        return Err(Error::Storage("the assigned id could not be read back".to_owned()));
    }
    match &row[0] {
        SqlValue::Int(i) => {
            if *i < -0x8000_0000i64 || *i > 0x7fff_ffffi64 {
                return Err(Error::Storage("the assigned id is out of range".to_owned()));
            }
            Ok(*i as i32)
        },
        _ => Err(Error::Storage("the assigned id could not be read back".to_owned())),
    }
}

/// Decodes a natural-key lookup: no row means the key is not stored; a
/// first cell that is an integer in range, or null, is the resolution.
fn resolved_id(rows: &Vec<Vec<SqlValue>>) -> (r: Result<Option<i32>, Error>)
    ensures
        rows@.len() == 0 ==> (r matches Ok(o) && o is None),
        r matches Ok(Some(id)) ==> rows@.len() >= 1 && rows@[0]@[0] == SqlValue::Int(id as i64),
        r is Ok <==> rows@.len() == 0 || (rows@[0]@.len() >= 1 && match rows@[0]@[0] {
            SqlValue::Int(i) => i32::MIN <= i <= i32::MAX,
            SqlValue::Null => true,
            SqlValue::Text(_) => false,
        }),
        r matches Err(e) ==> e is Storage,
{
    if rows.len() == 0 {
        return Ok(None);
    }
    let row = &rows[0];
    if row.len() == 0 {
        return Err(Error::Storage("row holds no column".to_owned()));
    }
    match &row[0] {
        SqlValue::Int(i) => {
            if *i < -0x8000_0000i64 || *i > 0x7fff_ffffi64 {
                return Err(Error::Storage("the stored id is out of range".to_owned()));
            }
            Ok(Some(*i as i32))
        },
        SqlValue::Null => Ok(None),
        SqlValue::Text(_) => Err(Error::Storage("the id column was textual".to_owned())),
    }
}

/// Maps raw single-column rows to ids. Success is owed exactly when every
/// row's first cell is an integer.
fn rows_to_ids(rows: Vec<Vec<SqlValue>>) -> (r: Result<Vec<i64>, Error>)
    ensures
        r is Ok <==> forall|j: int|
            0 <= j < rows@.len() ==> (#[trigger] rows@[j])@.len() >= 1 && rows@[j]@[0] is Int,
        r matches Ok(out) ==> out@.len() == rows@.len() && forall|j: int|
            0 <= j < rows@.len() ==> #[trigger] out@[j] == rows@[j]@[0]->Int_0,
        r matches Err(e) ==> e is Storage,
{
    let mut out: Vec<i64> = Vec::new();
    let mut i: usize = 0;
    while i < rows.len()
        invariant
            0 <= i <= rows@.len(),
            out@.len() == i,
            forall|j: int|
                0 <= j < i ==> (#[trigger] rows@[j])@.len() >= 1 && rows@[j]@[0] is Int,
            forall|j: int| 0 <= j < i ==> #[trigger] out@[j] == rows@[j]@[0]->Int_0,
        decreases rows@.len() - i,
    {
        let row = &rows[i];
        if row.len() == 0 {
            return Err(Error::Storage("row holds no column".to_owned()));
        }
        match &row[0] {
            SqlValue::Int(v) => {
                out.push(*v);
            },
            _ => {
                return Err(Error::Storage("the id column was not numeric".to_owned()));
            },
        }
        i = i + 1;
    }
    Ok(out)
}

/// Maps raw rows to keywords. Success is owed exactly when every row has
/// the keywords table's shape; one misshapen row fails the whole read.
fn rows_to_keywords(rows: Vec<Vec<SqlValue>>) -> (r: Result<Vec<Keyword>, Error>)
    ensures
        r is Ok <==> forall|j: int|
            0 <= j < rows@.len() ==> spec_kw_from_row((#[trigger] rows@[j])@) is Some,
        r matches Err(e) ==> e is Storage,
        r matches Ok(out) ==> out@.len() == rows@.len() && forall|j: int|
            0 <= j < rows@.len() ==> Some((#[trigger] out@[j])@) == spec_kw_from_row(rows@[j]@),
{
    let mut out: Vec<Keyword> = Vec::new();
    let mut i: usize = 0;
    while i < rows.len()
        invariant
            0 <= i <= rows@.len(),
            out@.len() == i,
            forall|j: int| 0 <= j < i ==> spec_kw_from_row((#[trigger] rows@[j])@) is Some,
            forall|j: int|
                0 <= j < i ==> Some((#[trigger] out@[j])@) == spec_kw_from_row(rows@[j]@),
        decreases rows@.len() - i,
    {
        match Keyword::from_row(&rows[i]) {
            Some(k) => {
                out.push(k);
            },
            None => {
                proof {
                    assert(spec_kw_from_row(rows@[i as int]@) is None);
                }
                return Err(Error::Storage("row did not match the keywords schema".to_owned()));
            },
        }
        i = i + 1;
    }
    Ok(out)
}

/// Maps raw single-column rows to strings. Success is owed exactly when
/// every row's first cell is textual; a null or numeric cell fails the
/// read, as reading a typed column does.
fn rows_to_strings(rows: Vec<Vec<SqlValue>>) -> (r: Result<Vec<String>, Error>)
    ensures
        r is Ok <==> forall|j: int|
            0 <= j < rows@.len() ==> (#[trigger] rows@[j])@.len() >= 1 && cell_text(
                rows@[j]@[0],
            ) is Some,
        r matches Err(e) ==> e is Storage,
        r matches Ok(out) ==> out@.len() == rows@.len() && forall|j: int|
            0 <= j < rows@.len() ==> Some((#[trigger] out@[j])@) == cell_text(rows@[j]@[0]),
{
    let mut out: Vec<String> = Vec::new();
    let mut i: usize = 0;
    while i < rows.len()
        invariant
            0 <= i <= rows@.len(),
            out@.len() == i,
            forall|j: int|
                0 <= j < i ==> (#[trigger] rows@[j])@.len() >= 1 && cell_text(
                    rows@[j]@[0],
                ) is Some,
            forall|j: int|
                0 <= j < i ==> Some((#[trigger] out@[j])@) == cell_text(rows@[j]@[0]),
        decreases rows@.len() - i,
    {
        let row = &rows[i];
        if row.len() < 1 {
            return Err(Error::Storage("row holds no column".to_owned()));
        }
        match &row[0] {
            SqlValue::Text(s) => {
                out.push(s.clone());
            },
            _ => {
                return Err(Error::Storage("column was not textual".to_owned()));
            },
        }
        i = i + 1;
    }
    Ok(out)
}

impl Keyword {
    /// Decodes one returned keyword row, in column order; a row of the wrong
    /// shape yields nothing.
    pub fn from_row(row: &Vec<SqlValue>) -> (r: Option<Keyword>)
        ensures
            match r {
                Some(k) => spec_kw_from_row(row@) == Some(k@),
                None => spec_kw_from_row(row@) is None,
            },
    {
        if row.len() != 3 {
            return None;
        }
        let id: Option<i32> = match &row[0] {
            SqlValue::Null => None,
            SqlValue::Int(i) => {
                if *i < -0x8000_0000i64 || *i > 0x7fff_ffffi64 {
                    return None;
                }
                Some(*i as i32)
            },
            SqlValue::Text(_) => {
                return None;
            },
        };
        let category: Option<String> = match &row[1] {
            SqlValue::Text(s) => Some(s.clone()),
            SqlValue::Null => None,
            SqlValue::Int(_) => {
                return None;
            },
        };
        let keyword: String = match &row[2] {
            SqlValue::Text(s) => s.clone(),
            _ => {
                return None;
            },
        };
        Some(Keyword { id, category, keyword })
    }

    /// Every stored keyword.
    pub fn list_all(db: &Db) -> (r: Result<Vec<Keyword>, Error>)
        ensures
            r matches Err(e) ==> e is Storage,
    {
        let no_params: Vec<SqlValue> = Vec::new();
        match db_query(db, "SELECT * FROM keywords;", &no_params) {
            Ok(rows) => rows_to_keywords(rows),
            Err(e) => Err(e),
        }
    }

    /// Every distinct category in use. Reading fails when an uncategorized
    /// keyword contributes a null cell, as reading a typed column does.
    pub fn list_categories(db: &Db) -> (r: Result<Vec<String>, Error>)
        ensures
            r matches Err(e) ==> e is Storage,
    {
        let no_params: Vec<SqlValue> = Vec::new();
        match db_query(db, "SELECT DISTINCT category FROM keywords;", &no_params) {
            Ok(rows) => rows_to_strings(rows),
            Err(e) => Err(e),
        }
    }

    /// Whether this keyword is stored: by id when it has one, by natural key
    /// otherwise.
    pub fn is_stored(&self, db: &Db) -> (r: Result<bool, Error>)
        ensures
            r matches Err(e) ==> e is Storage,
    {
        if self.is_db_entry() {
            let mut params: Vec<SqlValue> = Vec::new();
            params.push(opt_i32_param(&self.id));
            db_exists(db, "SELECT * FROM keywords WHERE id = ?1;", &params)
        } else {
            let params = keyword_key_params(self);
            db_exists(
                db,
                "SELECT * FROM keywords WHERE category IS ?1 AND keyword == ?2;",
                &params,
            )
        }
    }

    /// Stores the keyword: an unpersisted one is inserted and takes the
    /// freshly assigned id; a persisted one has its row updated instead. The
    /// natural key in memory never changes.
    pub fn insert(&mut self, db: &Db) -> (r: Result<(), Error>)
        ensures
            final(self)@.category == old(self)@.category,
            final(self)@.keyword == old(self)@.keyword,
            old(self)@.id is Some ==> final(self)@.id == old(self)@.id,
            old(self)@.id is None && r is Ok ==> final(self)@.id is Some,
            old(self)@.id is None && r is Err ==> final(self)@.id is None,
            r matches Err(e) ==> e is Storage,
    {
        if !self.is_db_entry() {
            let params = keyword_key_params(self);
            match db_execute(
                db,
                "INSERT INTO keywords (category, keyword) VALUES (?1, ?2);",
                &params,
            ) {
                Ok(_) => {},
                Err(e) => {
                    return Err(e);
                },
            }
            let no_params: Vec<SqlValue> = Vec::new();
            let rows = match db_query(db, "SELECT max(id) FROM keywords LIMIT 1;", &no_params) {
                Ok(rows) => rows,
                Err(e) => {
                    return Err(e);
                },
            };
            match read_back_id(&rows) {
                Ok(id) => {
                    self.id = Some(id);
                    Ok(())
                },
                Err(e) => Err(e),
            }
        } else {
            let mut params = keyword_key_params(self);
            params.push(opt_i32_param(&self.id));
            match db_execute(
                db,
                "UPDATE keywords SET category = ?1, keyword = ?2 WHERE id == ?3;",
                &params,
            ) {
                Ok(_) => Ok(()),
                Err(e) => Err(e),
            }
        }
    }

    /// Re-reads this keyword's id from its natural key: the id afterwards is
    /// whatever the store associates with the key, or absent when the key is
    /// not stored.
    fn update_self(&mut self, db: &Db) -> (r: Result<(), Error>)
        ensures
            final(self)@.category == old(self)@.category,
            final(self)@.keyword == old(self)@.keyword,
            r matches Err(_) ==> final(self)@.id == old(self)@.id,
            r matches Err(e) ==> e is Storage,
    {
        let params = keyword_key_params(self);
        let rows = match db_query(
            db,
            "SELECT id FROM keywords WHERE category IS ?1 AND keyword == ?2;",
            &params,
        ) {
            Ok(rows) => rows,
            Err(e) => {
                return Err(e);
            },
        };
        match resolved_id(&rows) {
            Ok(found) => {
                self.id = found;
                Ok(())
            },
            Err(e) => Err(e),
        }
    }

    /// Stores the keyword if its natural key is absent, then re-reads its id
    /// from that key. A key the store cannot resolve afterwards is a
    /// failure, so a success always hands back a keyword carrying a valid
    /// id.
    pub fn insert_update(&mut self, db: &Db) -> (r: Result<(), Error>)
        ensures
            final(self)@.category == old(self)@.category,
            final(self)@.keyword == old(self)@.keyword,
            r is Ok ==> final(self)@.id is Some,
            r matches Err(e) ==> e is Storage,
    {
        let present = match self.is_stored(db) {
            Ok(b) => b,
            Err(e) => {
                return Err(e);
            },
        };
        if !present {
            match self.insert(db) {
                Ok(_) => {},
                Err(e) => {
                    return Err(e);
                },
            }
        }
        match self.update_self(db) {
            Ok(_) => {},
            Err(e) => {
                return Err(e);
            },
        }
        if !self.is_db_entry() {
            return Err(Error::Storage("the keyword's id could not be resolved".to_owned()));
        }
        Ok(())
    }

    /// The placeholder pairs of the natural-key lookup for `n` keywords:
    /// `category IS ?1 AND keyword == ?2 OR category IS ?3 AND …`, two
    /// placeholders per keyword, contiguous from one.
    pub open spec fn spec_fetch_conds(n: nat) -> Seq<char>
        decreases n,
    {
        if n == 0 {
            Seq::empty()
        } else {
            Self::spec_fetch_conds((n - 1) as nat) + (if n > 1 {
                " OR "@
            } else {
                Seq::<char>::empty()
            }) + "category IS "@ + "?"@ + dec_digits((2 * n - 1) as nat) + " AND keyword == "@
                + "?"@ + dec_digits(2 * n)
        }
    }

    /// Looks up the stored ids of every given keyword by natural key;
    /// keywords the store does not know contribute nothing.
    fn fetch_ids(db: &Db, keys: &Vec<Keyword>) -> (r: Result<Vec<i64>, Error>)
        ensures
            keys@.len() == 0 ==> (r matches Ok(ids) && ids@.len() == 0),
            r matches Err(e) ==> e is Storage,
    {
        if keys.len() == 0 {
            return Ok(Vec::new());
        }
        if keys.len() > usize::MAX / 2 - 1 {
            return Err(Error::Storage("too many keywords in one lookup".to_owned()));
        }
        let q = fetch_query(keys.len());
        let params = natural_key_params(keys);
        let rows = match db_query(db, q.as_str(), &params) {
            Ok(rows) => rows,
            Err(e) => {
                return Err(e);
            },
        };
        rows_to_ids(rows)
    }
}

/// Whether a parameter vector carries the `j`-th keyword's natural key at
/// its two cells: the category at position `2 j`, the keyword right after.
pub open spec fn key_params_at(r: Seq<SqlValue>, keys: Seq<Keyword>, j: int) -> bool {
    is_opt_text_cell(r[2 * j], keys[j]@.category) && is_text_cell(r[2 * j + 1], keys[j]@.keyword)
}

/// The parameter vector of the natural-key lookup: a category cell and a
/// keyword cell per entry, in declaration order.
fn natural_key_params(keys: &Vec<Keyword>) -> (r: Vec<SqlValue>)
    ensures
        r@.len() == 2 * keys@.len(),
        forall|j: int| 0 <= j < keys@.len() ==> #[trigger] key_params_at(r@, keys@, j),
{
    let mut params: Vec<SqlValue> = Vec::new();
    let mut i: usize = 0;
    while i < keys.len()
        invariant
            0 <= i <= keys@.len(),
            params@.len() == 2 * i,
            forall|j: int| 0 <= j < i ==> #[trigger] key_params_at(params@, keys@, j),
        decreases keys@.len() - i,
    {
        let ghost prior = params@;
        params.push(opt_text_param(&keys[i].category));
        params.push(SqlValue::Text(keys[i].keyword.clone()));
        proof {
            assert forall|j: int| 0 <= j < i + 1 implies #[trigger] key_params_at(
                params@,
                keys@,
                j,
            ) by {
                if j < i {
                    assert(key_params_at(prior, keys@, j));
                    assert(params@[2 * j] == prior[2 * j]);
                    assert(params@[2 * j + 1] == prior[2 * j + 1]);
                }
            }
        }
        i = i + 1;
    }
    params
}

/// Renders the natural-key lookup statement for `n` keywords.
fn fetch_query(n: usize) -> (r: String)
    requires
        1 <= n <= usize::MAX / 2 - 1,
    ensures
        r@ == "SELECT id FROM keywords WHERE "@ + Keyword::spec_fetch_conds(n as nat) + ";"@,
{
    let mut conds = String::new();
    let mut i: usize = 0;
    proof {
        assert(Keyword::spec_fetch_conds(0) =~= Seq::<char>::empty());
        assert(conds@ =~= Keyword::spec_fetch_conds(0));
    }
    while i < n
        invariant
            0 <= i <= n,
            n <= usize::MAX / 2 - 1,
            conds@ == Keyword::spec_fetch_conds(i as nat),
        decreases n - i,
    {
        if i > 0 {
            conds.append(" OR ");
        }
        conds.append("category IS ");
        conds.append("?");
        let first_idx: u64 = 2 * (i as u64) + 1;
        conds.append(u64_to_dec(first_idx).as_str());
        conds.append(" AND keyword == ");
        conds.append("?");
        conds.append(u64_to_dec(first_idx + 1).as_str());
        proof {
            assert((2 * (i + 1) - 1) as nat == first_idx as nat);
            assert((2 * (i + 1)) as nat == (first_idx + 1) as nat);
            assert(conds@ =~= Keyword::spec_fetch_conds((i + 1) as nat));
        }
        i = i + 1;
    }
    let mut q = "SELECT id FROM keywords WHERE ".to_owned();
    q.append(conds.as_str());
    q.append(";");
    proof {
        assert(q@ =~= "SELECT id FROM keywords WHERE "@ + Keyword::spec_fetch_conds(n as nat)
            + ";"@);
    }
    q
}

impl Clone for Music {
    /// A clone carries the same model, persistence state included.
    fn clone(&self) -> (r: Self)
        ensures
            r@ == self@,
    {
        let composer = match &self.composer {
            Some(s) => Some(s.clone()),
            None => None,
        };
        let arranger = match &self.arranger {
            Some(s) => Some(s.clone()),
            None => None,
        };
        let notes = match &self.notes {
            Some(s) => Some(s.clone()),
            None => None,
        };
        let r = Music {
            id: self.id,
            title: self.title.clone(),
            source: self.source.clone(),
            composer,
            arranger,
            notes,
            runtime: self.runtime,
        };
        proof {
            assert(r@ == self@);
        }
        r
    }
}

impl Clone for Keyword {
    /// A clone carries the same model, persistence state included.
    fn clone(&self) -> (r: Self)
        ensures
            r@ == self@,
    {
        let category = match &self.category {
            Some(s) => Some(s.clone()),
            None => None,
        };
        let r = Keyword { id: self.id, category, keyword: self.keyword.clone() };
        proof {
            assert(r@ == self@);
        }
        r
    }
}

} // verus!

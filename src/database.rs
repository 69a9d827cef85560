//! Store gateway: typed folder and note operations over the relational store.
use crate::outside::{
    fresh_id, is_lower_hex_digit, now_stamp, parse_stamp, sql_execute, sql_query_count,
    sql_query_rows, utc_zone, zone_epoch,
};
use vstd::prelude::*;
use vstd::string::*;

verus! {

/// Why a store operation failed.
#[derive(Debug, Clone, Copy, PartialEq, Eq, Structural)]
pub enum StoreError {
    /// SQLite reported an error.
    Sql,
    /// A required column came back NULL.
    MissingColumn,
    /// A stored timestamp could not be read in the configured zone.
    BadTimestamp,
    /// A listing row named neither a directory nor a file.
    BadKind,
    /// A count came back negative.
    BadCount,
}

/// A folder as stored; times are seconds since the UNIX epoch.
#[derive(Debug, Clone)]
pub struct Folder {
    pub id: String,
    pub title: String,
    pub parent_id: Option<String>,
    pub created_at: i64,
    pub updated_at: i64,
}

/// A note as stored; times are seconds since the UNIX epoch.
#[derive(Debug, Clone)]
pub struct Note {
    pub id: String,
    pub title: String,
    pub abstract_text: Option<String>,
    pub content: String,
    pub syntax: String,
    pub parent_id: Option<String>,
    pub user_id: String,
    pub created_at: i64,
    pub updated_at: i64,
}

/// One entry of a recursive folder listing, by its path relative to the listed folder.
#[derive(Debug, Clone)]
pub enum FileType {
    Directory { path: String },
    File { path: String },
}

/// The text of an optional string.
pub open spec fn opt_view(o: Option<String>) -> Option<Seq<char>> {
    match o {
        Some(s) => Some(s@),
        None => None,
    }
}

/// A store identifier as issued by this library.
pub open spec fn is_issued_id(s: Seq<char>) -> bool {
    s.len() == 32 && forall|i: int| 0 <= i < 32 ==> is_lower_hex_digit(#[trigger] s[i])
}

/// The identity, title and parent that a row `(id, title, parent_id, created_at,
/// updated_at)` gives a folder; the timestamps are read through the time zone.
pub open spec fn folder_of_row(row: Seq<Option<String>>, f: Folder) -> bool {
    &&& row[0] is Some && f.id@ == row[0]->Some_0@
    &&& row[1] is Some && f.title@ == row[1]->Some_0@
    &&& opt_view(f.parent_id) == opt_view(row[2])
}

/// The text fields that a row `(id, title, abstract, content, syntax, parent_id,
/// user_id, created_at, updated_at)` gives a note; the timestamps are read through
/// the time zone.
pub open spec fn note_of_row(row: Seq<Option<String>>, n: Note) -> bool {
    &&& row[0] is Some && n.id@ == row[0]->Some_0@
    &&& row[1] is Some && n.title@ == row[1]->Some_0@
    &&& opt_view(n.abstract_text) == opt_view(row[2])
    &&& row[3] is Some && n.content@ == row[3]->Some_0@
    &&& row[4] is Some && n.syntax@ == row[4]->Some_0@
    &&& opt_view(n.parent_id) == opt_view(row[5])
    &&& row[6] is Some && n.user_id@ == row[6]->Some_0@
}

/// The listing entry for a `(path, kind)` row.
pub open spec fn file_type_of(path: Seq<char>, kind: Seq<char>) -> Option<(bool, Seq<char>)> {
    if kind == "directory"@ {
        Some((true, path))
    } else if kind == "file"@ {
        Some((false, path))
    } else {
        None
    }
}

/// Whether `f` is the directory (`dir`) or file entry for `path`.
pub open spec fn file_type_is(f: FileType, dir: bool, path: Seq<char>) -> bool {
    match f {
        FileType::Directory { path: p } => dir && p@ == path,
        FileType::File { path: p } => !dir && p@ == path,
    }
}

fn own(s: &str) -> (r: Option<String>)
    ensures
        r is Some && r->Some_0@ == s@,
{
    Some(String::from_str(s))
}

fn own_opt(s: Option<&str>) -> (r: Option<String>)
    ensures
        match s {
            Some(t) => r is Some && r->Some_0@ == t@,
            None => r is None,
        },
{
    match s {
        Some(t) => Some(String::from_str(t)),
        None => None,
    }
}

fn required(c: &Option<String>) -> (r: Result<String, StoreError>)
    ensures
        match c {
            Some(s) => r is Ok && r->Ok_0@ == s@,
            None => r == Err::<String, StoreError>(StoreError::MissingColumn),
        },
{
    match c {
        Some(s) => Ok(s.clone()),
        None => Err(StoreError::MissingColumn),
    }
}

fn optional(c: &Option<String>) -> (r: Option<String>)
    ensures
        opt_view(r) == opt_view(*c),
{
    match c {
        Some(s) => Some(s.clone()),
        None => None,
    }
}

/// A mutation that the gateway has asked the store to make, with its arguments.
pub enum StoreWrite {
    CreateFolder { title: Seq<char>, parent: Option<Seq<char>>, user: Seq<char> },
    RenameFolder { id: Seq<char>, title: Seq<char>, user: Seq<char> },
    MoveFolder { id: Seq<char>, parent: Option<Seq<char>>, user: Seq<char> },
    DeleteFolder { id: Seq<char>, user: Seq<char> },
    CreateNote {
        id: Seq<char>,
        title: Seq<char>,
        abstract_text: Option<Seq<char>>,
        content: Seq<char>,
        syntax: Seq<char>,
        parent: Option<Seq<char>>,
        user: Seq<char>,
    },
    UpdateNote {
        id: Seq<char>,
        title: Seq<char>,
        abstract_text: Option<Seq<char>>,
        content: Seq<char>,
        syntax: Seq<char>,
    },
    MoveNote { id: Seq<char>, parent: Option<Seq<char>> },
    DeleteNote { id: Seq<char> },
}

/// The text of an optional borrowed string.
pub open spec fn opt_str_view(o: Option<&str>) -> Option<Seq<char>> {
    match o {
        Some(s) => Some(s@),
        None => None,
    }
}

/// Typed access to the notes store of one connection; it keeps the list of
/// every mutation it has sent to the store.
pub struct Database {
    pub connection: rusqlite::Connection,
    pub timezone: chrono_tz::Tz,
    writes: Ghost<Seq<StoreWrite>>,
}

impl Database {
    /// The zone in which stored civil times are read and written.
    pub closed spec fn zone(&self) -> chrono_tz::Tz {
        self.timezone
    }

    /// Every mutation sent to the store so far, oldest first, whether or not it succeeded.
    pub closed spec fn writes(&self) -> Seq<StoreWrite> {
        self.writes@
    }

    /// A gateway over `connection` whose timestamps are civil times in `timezone`
    /// (UTC when none is given).
    pub fn new(connection: rusqlite::Connection, timezone: Option<chrono_tz::Tz>) -> (r: Self)
        ensures
            timezone matches Some(tz) ==> r.zone() == tz,
            r.writes() == Seq::<StoreWrite>::empty(),
    {
        let timezone = match timezone {
            Some(tz) => tz,
            None => utc_zone(),
        };
        Database { connection, timezone, writes: Ghost(Seq::empty()) }
    }

    /// A gateway whose timestamps are civil times in UTC.
    pub fn with_utc(connection: rusqlite::Connection) -> (r: Self)
        ensures
            r.writes() == Seq::<StoreWrite>::empty(),
    {
        Self::new(connection, None)
    }

    /// The instant a stored `YYYY-MM-DD HH:MM:SS` text denotes in the configured zone.
    fn stamp_to_epoch(&self, text: &str) -> (r: Result<i64, StoreError>) {
        match parse_stamp(text) {
            Some(t) => match zone_epoch(&self.timezone, &t) {
                Some(e) => Ok(e),
                None => Err(StoreError::BadTimestamp),
            },
            None => Err(StoreError::BadTimestamp),
        }
    }

    fn stamp_column(&self, c: &Option<String>) -> (r: Result<i64, StoreError>)
        ensures
            c is None ==> r == Err::<i64, StoreError>(StoreError::MissingColumn),
    {
        match c {
            Some(s) => self.stamp_to_epoch(s.as_str()),
            None => Err(StoreError::MissingColumn),
        }
    }

    /// The folder a `(id, title, parent_id, created_at, updated_at)` row describes.
    pub fn map_folder_row(&self, row: &Vec<Option<String>>) -> (r: Result<Folder, StoreError>)
        requires
            row@.len() == 5,
        ensures
            r matches Ok(f) ==> folder_of_row(row@, f),
            (row@[0] is None || row@[1] is None) ==> r == Err::<Folder, StoreError>(
                StoreError::MissingColumn,
            ),
    {
        let id = required(&row[0])?;
        let title = required(&row[1])?;
        let parent_id = optional(&row[2]);
        let created_at = self.stamp_column(&row[3])?;
        let updated_at = self.stamp_column(&row[4])?;
        Ok(Folder { id, title, parent_id, created_at, updated_at })
    }

    /// The note a `(id, title, abstract, content, syntax, parent_id, user_id,
    /// created_at, updated_at)` row describes.
    pub fn map_note_row(&self, row: &Vec<Option<String>>) -> (r: Result<Note, StoreError>)
        requires
            row@.len() == 9,
        ensures
            r matches Ok(n) ==> note_of_row(row@, n),
            (row@[0] is None || row@[1] is None || row@[3] is None || row@[4] is None
                || row@[6] is None) ==> r == Err::<Note, StoreError>(StoreError::MissingColumn),
    {
        let id = required(&row[0])?;
        let title = required(&row[1])?;
        let abstract_text = optional(&row[2]);
        let content = required(&row[3])?;
        let syntax = required(&row[4])?;
        let parent_id = optional(&row[5]);
        let user_id = required(&row[6])?;
        let created_at = self.stamp_column(&row[7])?;
        let updated_at = self.stamp_column(&row[8])?;
        Ok(Note {
            id,
            title,
            abstract_text,
            content,
            syntax,
            parent_id,
            user_id,
            created_at,
            updated_at,
        })
    }

    fn execute(&self, sql: &str, args: &Vec<Option<String>>) -> (r: Result<usize, StoreError>) {
        match sql_execute(&self.connection, sql, args) {
            Ok(n) => Ok(n),
            Err(_) => Err(StoreError::Sql),
        }
    }

    fn rows(&self, sql: &str, args: &Vec<Option<String>>, width: usize) -> (r: Result<
        Vec<Vec<Option<String>>>,
        StoreError,
    >)
        ensures
            r matches Ok(rows) ==> forall|k: int|
                0 <= k < rows@.len() ==> #[trigger] rows@[k]@.len() == width,
    {
        match sql_query_rows(&self.connection, sql, args, width) {
            Ok(rows) => Ok(rows),
            Err(_) => Err(StoreError::Sql),
        }
    }

    fn count(&self, sql: &str, args: &Vec<Option<String>>) -> (r: Result<usize, StoreError>) {
        match sql_query_count(&self.connection, sql, args) {
            Ok(n) => {
                if n < 0 {
                    Err(StoreError::BadCount)
                } else {
                    Ok(n as usize)
                }
            },
            Err(_) => Err(StoreError::Sql),
        }
    }

    /// The first column of the first row of a one-column query, if any row came back.
    fn first_text(&self, sql: &str, args: &Vec<Option<String>>) -> (r: Result<
        Option<String>,
        StoreError,
    >) {
        let rows = self.rows(sql, args, 1)?;
        if rows.len() == 0 {
            return Ok(None);
        }
        match &rows[0][0] {
            Some(s) => Ok(Some(s.clone())),
            None => Err(StoreError::MissingColumn),
        }
    }

    fn folders_of(&self, rows: &Vec<Vec<Option<String>>>) -> (r: Result<Vec<Folder>, StoreError>)
        requires
            forall|k: int| 0 <= k < rows@.len() ==> #[trigger] rows@[k]@.len() == 5,
        ensures
            r matches Ok(fs) ==> fs@.len() == rows@.len() && forall|k: int|
                0 <= k < rows@.len() ==> folder_of_row(rows@[k]@, #[trigger] fs@[k]),
    {
        let mut out: Vec<Folder> = Vec::new();
        let mut i: usize = 0;
        while i < rows.len()
            invariant
                forall|k: int| 0 <= k < rows@.len() ==> #[trigger] rows@[k]@.len() == 5,
                i <= rows@.len(),
                out@.len() == i,
                forall|k: int| 0 <= k < i ==> folder_of_row(rows@[k]@, #[trigger] out@[k]),
            decreases rows@.len() - i,
        {
            let f = self.map_folder_row(&rows[i])?;
            out.push(f);
            i = i + 1;
        }
        Ok(out)
    }

    fn notes_of(&self, rows: &Vec<Vec<Option<String>>>) -> (r: Result<Vec<Note>, StoreError>)
        requires
            forall|k: int| 0 <= k < rows@.len() ==> #[trigger] rows@[k]@.len() == 9,
        ensures
            r matches Ok(ns) ==> ns@.len() == rows@.len() && forall|k: int|
                0 <= k < rows@.len() ==> note_of_row(rows@[k]@, #[trigger] ns@[k]),
    {
        let mut out: Vec<Note> = Vec::new();
        let mut i: usize = 0;
        while i < rows.len()
            invariant
                forall|k: int| 0 <= k < rows@.len() ==> #[trigger] rows@[k]@.len() == 9,
                i <= rows@.len(),
                out@.len() == i,
                forall|k: int| 0 <= k < i ==> note_of_row(rows@[k]@, #[trigger] out@[k]),
            decreases rows@.len() - i,
        {
            let n = self.map_note_row(&rows[i])?;
            out.push(n);
            i = i + 1;
        }
        Ok(out)
    }

    /// Creates a folder owned by `user_id` and returns its fresh identifier.
    pub fn create_folder(&mut self, title: &str, parent_id: Option<&str>, user_id: &str) -> (r:
        Result<String, StoreError>)
        ensures
            r matches Ok(id) ==> is_issued_id(id@),
            final(self).writes() == old(self).writes().push(
                StoreWrite::CreateFolder { title: title@, parent: opt_str_view(parent_id), user: user_id@ },
            ),
    {
        let id = fresh_id();
        let now = now_stamp(&self.timezone);
        let args = vec![Some(id.clone()), own(title), own_opt(parent_id), own(user_id), Some(now)];
        let res = self.execute(
            "INSERT INTO folders (id, title, parent_id, user_id, created_at, updated_at) VALUES (?1, ?2, ?3, ?4, ?5, ?5)",
            &args,
        );
        self.writes = Ghost(
            self.writes@.push(
                StoreWrite::CreateFolder { title: title@, parent: opt_str_view(parent_id), user: user_id@ },
            ),
        );
        res?;
        Ok(id)
    }

    /// The folder `id` of `user_id`, if it exists.
    pub fn get_folder_by_id(&self, id: &str, user_id: &str) -> (r: Result<Option<Folder>, StoreError>) {
        let args = vec![own(id), own(user_id)];
        let rows = self.rows(
            "SELECT id, title, parent_id, created_at, updated_at FROM folders WHERE id = ?1 AND user_id = ?2",
            &args,
            5,
        )?;
        if rows.len() == 0 {
            return Ok(None);
        }
        let f = self.map_folder_row(&rows[0])?;
        Ok(Some(f))
    }

    /// Renames folder `id`; true when a row changed.
    pub fn update_folder(&mut self, id: &str, title: &str, user_id: &str) -> (r: Result<bool, StoreError>)
        ensures
            final(self).writes() == old(self).writes().push(
                StoreWrite::RenameFolder { id: id@, title: title@, user: user_id@ },
            ),
    {
        let now = now_stamp(&self.timezone);
        let args = vec![own(title), Some(now), own(id), own(user_id)];
        let res = self.execute(
            "UPDATE folders SET title = ?1, updated_at = ?2 WHERE id = ?3 AND user_id = ?4",
            &args,
        );
        self.writes = Ghost(self.writes@.push(StoreWrite::RenameFolder { id: id@, title: title@, user: user_id@ }));
        let n = res?;
        Ok(n > 0)
    }

    /// Moves folder `id` under `parent_id` (the root when none); true when a row changed.
    pub fn update_folder_parent(&mut self, id: &str, parent_id: Option<&str>, user_id: &str) -> (r:
        Result<bool, StoreError>)
        ensures
            final(self).writes() == old(self).writes().push(
                StoreWrite::MoveFolder { id: id@, parent: opt_str_view(parent_id), user: user_id@ },
            ),
    {
        let now = now_stamp(&self.timezone);
        let args = vec![own_opt(parent_id), Some(now), own(id), own(user_id)];
        let res = self.execute(
            "UPDATE folders SET parent_id = ?1, updated_at = ?2 WHERE id = ?3 AND user_id = ?4",
            &args,
        );
        self.writes = Ghost(
            self.writes@.push(StoreWrite::MoveFolder { id: id@, parent: opt_str_view(parent_id), user: user_id@ }),
        );
        let n = res?;
        Ok(n > 0)
    }

    /// Deletes folder `id`; true when a row went. Children are not touched.
    pub fn delete_folder(&mut self, id: &str, user_id: &str) -> (r: Result<bool, StoreError>)
        ensures
            final(self).writes() == old(self).writes().push(StoreWrite::DeleteFolder { id: id@, user: user_id@ }),
    {
        let args = vec![own(id), own(user_id)];
        let res = self.execute("DELETE FROM folders WHERE id = ?1 AND user_id = ?2", &args);
        self.writes = Ghost(self.writes@.push(StoreWrite::DeleteFolder { id: id@, user: user_id@ }));
        let n = res?;
        Ok(n > 0)
    }

    /// The folders of `user_id` directly under `parent_id` (the root when none), by title.
    pub fn list_folders_by_parent(&self, parent_id: Option<&str>, user_id: &str) -> (r: Result<
        Vec<Folder>,
        StoreError,
    >) {
        let rows = match parent_id {
            Some(pid) => {
                let args = vec![own(pid), own(user_id)];
                self.rows(
                    "SELECT id, title, parent_id, created_at, updated_at FROM folders WHERE parent_id = ?1 AND user_id = ?2 ORDER BY title",
                    &args,
                    5,
                )?
            },
            None => {
                let args = vec![own(user_id)];
                self.rows(
                    "SELECT id, title, parent_id, created_at, updated_at FROM folders WHERE parent_id IS NULL AND user_id = ?1 ORDER BY title",
                    &args,
                    5,
                )?
            },
        };
        self.folders_of(&rows)
    }

    /// Creates a note with the given identifier and returns that identifier.
    pub fn create_note(
        &mut self,
        id: &str,
        title: &str,
        abstract_text: Option<&str>,
        content: &str,
        syntax: &str,
        parent_id: Option<&str>,
        user_id: &str,
    ) -> (r: Result<String, StoreError>)
        ensures
            r matches Ok(s) ==> s@ == id@,
            final(self).writes() == old(self).writes().push(
                StoreWrite::CreateNote {
                    id: id@,
                    title: title@,
                    abstract_text: opt_str_view(abstract_text),
                    content: content@,
                    syntax: syntax@,
                    parent: opt_str_view(parent_id),
                    user: user_id@,
                },
            ),
    {
        let now = now_stamp(&self.timezone);
        let args = vec![
            own(id),
            own(title),
            own_opt(abstract_text),
            own(content),
            own(syntax),
            own_opt(parent_id),
            own(user_id),
            Some(now),
        ];
        let res = self.execute(
            "INSERT INTO notes (id, title, abstract, content, syntax, parent_id, user_id, created_at, updated_at) VALUES (?1, ?2, ?3, ?4, ?5, ?6, ?7, ?8, ?8)",
            &args,
        );
        self.writes = Ghost(
            self.writes@.push(
                StoreWrite::CreateNote {
                    id: id@,
                    title: title@,
                    abstract_text: opt_str_view(abstract_text),
                    content: content@,
                    syntax: syntax@,
                    parent: opt_str_view(parent_id),
                    user: user_id@,
                },
            ),
        );
        res?;
        Ok(String::from_str(id))
    }

    /// The note `id`, if it exists.
    pub fn get_note_by_id(&self, id: &str) -> (r: Result<Option<Note>, StoreError>) {
        let args = vec![own(id)];
        let rows = self.rows(
            "SELECT id, title, abstract, content, syntax, parent_id, user_id, created_at, updated_at FROM notes WHERE id = ?1",
            &args,
            9,
        )?;
        if rows.len() == 0 {
            return Ok(None);
        }
        let n = self.map_note_row(&rows[0])?;
        Ok(Some(n))
    }

    /// Replaces title, abstract, content and syntax of note `id`; true when a row changed.
    pub fn update_note(
        &mut self,
        id: &str,
        title: &str,
        abstract_text: Option<&str>,
        content: &str,
        syntax: &str,
    ) -> (r: Result<bool, StoreError>)
        ensures
            final(self).writes() == old(self).writes().push(
                StoreWrite::UpdateNote {
                    id: id@,
                    title: title@,
                    abstract_text: opt_str_view(abstract_text),
                    content: content@,
                    syntax: syntax@,
                },
            ),
    {
        let now = now_stamp(&self.timezone);
        let args = vec![own(title), own_opt(abstract_text), own(content), own(syntax), Some(now), own(id)];
        let res = self.execute(
            "UPDATE notes SET title = ?1, abstract = ?2, content = ?3, syntax = ?4, updated_at = ?5 WHERE id = ?6",
            &args,
        );
        self.writes = Ghost(
            self.writes@.push(
                StoreWrite::UpdateNote {
                    id: id@,
                    title: title@,
                    abstract_text: opt_str_view(abstract_text),
                    content: content@,
                    syntax: syntax@,
                },
            ),
        );
        let n = res?;
        Ok(n > 0)
    }

    /// Moves note `id` under `parent_id` (the root when none); true when a row changed.
    pub fn update_note_parent(&mut self, id: &str, parent_id: Option<&str>) -> (r: Result<bool, StoreError>)
        ensures
            final(self).writes() == old(self).writes().push(
                StoreWrite::MoveNote { id: id@, parent: opt_str_view(parent_id) },
            ),
    {
        let now = now_stamp(&self.timezone);
        let args = vec![own_opt(parent_id), Some(now), own(id)];
        let res = self.execute("UPDATE notes SET parent_id = ?1, updated_at = ?2 WHERE id = ?3", &args);
        self.writes = Ghost(self.writes@.push(StoreWrite::MoveNote { id: id@, parent: opt_str_view(parent_id) }));
        let n = res?;
        Ok(n > 0)
    }

    /// Deletes note `id`; true when a row went.
    pub fn delete_note(&mut self, id: &str) -> (r: Result<bool, StoreError>)
        ensures
            final(self).writes() == old(self).writes().push(StoreWrite::DeleteNote { id: id@ }),
    {
        let args = vec![own(id)];
        let res = self.execute("DELETE FROM notes WHERE id = ?1", &args);
        self.writes = Ghost(self.writes@.push(StoreWrite::DeleteNote { id: id@ }));
        let n = res?;
        Ok(n > 0)
    }

    /// The notes of `user_id` directly under `parent_id` (the root when none), by title.
    pub fn list_notes_by_parent(&self, parent_id: Option<&str>, user_id: &str) -> (r: Result<
        Vec<Note>,
        StoreError,
    >) {
        let rows = match parent_id {
            Some(pid) => {
                let args = vec![own(pid), own(user_id)];
                self.rows(
                    "SELECT id, title, abstract, content, syntax, parent_id, user_id, created_at, updated_at FROM notes WHERE parent_id = ?1 AND user_id = ?2 ORDER BY title",
                    &args,
                    9,
                )?
            },
            None => {
                let args = vec![own(user_id)];
                self.rows(
                    "SELECT id, title, abstract, content, syntax, parent_id, user_id, created_at, updated_at FROM notes WHERE parent_id IS NULL AND user_id = ?1 ORDER BY title",
                    &args,
                    9,
                )?
            },
        };
        self.notes_of(&rows)
    }

    /// The store path of folder `id`.
    pub fn get_folder_path_by_id(&self, id: &str) -> (r: Result<Option<String>, StoreError>) {
        let args = vec![own(id)];
        self.first_text("SELECT full_path FROM v_folder_id_path_mapping WHERE id = ?1", &args)
    }

    /// The folder of `user_id` at store path `path`.
    pub fn get_folder_id_by_path(&self, path: &str, user_id: &str) -> (r: Result<
        Option<String>,
        StoreError,
    >) {
        let args = vec![own(path), own(user_id)];
        self.first_text(
            "SELECT m.id FROM v_folder_id_path_mapping m JOIN folders f ON f.id = m.id WHERE m.full_path = ?1 AND f.user_id = ?2",
            &args,
        )
    }

    /// The store path of note `id`.
    pub fn get_note_path_by_id(&self, id: &str) -> (r: Result<Option<String>, StoreError>) {
        let args = vec![own(id)];
        self.first_text("SELECT full_path FROM v_note_id_path_mapping WHERE id = ?1", &args)
    }

    /// The note at store path `path`.
    pub fn get_note_id_by_path(&self, path: &str) -> (r: Result<Option<String>, StoreError>) {
        let args = vec![own(path)];
        self.first_text("SELECT id FROM v_note_id_path_mapping WHERE full_path = ?1", &args)
    }

    /// The listing entry for a `(path, kind)` row.
    pub fn map_file_type(path: &Option<String>, kind: &Option<String>) -> (r: Result<
        FileType,
        StoreError,
    >)
        ensures
            match (opt_view(*path), opt_view(*kind)) {
                (Some(p), Some(k)) => match file_type_of(p, k) {
                    Some((dir, q)) => r matches Ok(f) && file_type_is(f, dir, q),
                    None => r == Err::<FileType, StoreError>(StoreError::BadKind),
                },
                _ => r == Err::<FileType, StoreError>(StoreError::MissingColumn),
            },
    {
        let path = required(path)?;
        let kind = required(kind)?;
        let dir = String::from_str("directory");
        let file = String::from_str("file");
        if kind == dir {
            Ok(FileType::Directory { path })
        } else if kind == file {
            Ok(FileType::File { path })
        } else {
            Err(StoreError::BadKind)
        }
    }

    /// Every folder and note of `user_id` below folder `folder_id`, by path relative to it.
    pub fn get_folder_contents_recursive(&self, folder_id: &str, user_id: &str) -> (r: Result<
        Vec<FileType>,
        StoreError,
    >) {
        let args = vec![own(folder_id), own(user_id)];
        let rows = self.rows(
            "WITH RECURSIVE folder_tree AS ( SELECT id, title, parent_id, 0 AS depth, title AS path FROM folders WHERE id = ?1 UNION ALL SELECT f.id, f.title, f.parent_id, ft.depth + 1, CASE WHEN ft.depth = 0 THEN f.title ELSE ft.path || '/' || f.title END FROM folders f INNER JOIN folder_tree ft ON f.parent_id = ft.id ), folder_paths AS ( SELECT path, 'directory' AS type FROM folder_tree WHERE depth > 0 ), note_paths AS ( SELECT CASE WHEN ft.depth = 0 THEN n.title || '.' || n.syntax ELSE ft.path || '/' || n.title || '.' || n.syntax END AS path, 'file' AS type FROM notes n INNER JOIN folder_tree ft ON (n.parent_id = ft.id OR (n.parent_id IS NULL AND ft.id = ?1)) WHERE n.user_id = ?2 ) SELECT path, type FROM folder_paths UNION ALL SELECT path, type FROM note_paths ORDER BY path",
            &args,
            2,
        )?;
        let mut out: Vec<FileType> = Vec::new();
        let mut i: usize = 0;
        while i < rows.len()
            invariant
                forall|k: int| 0 <= k < rows@.len() ==> #[trigger] rows@[k]@.len() == 2,
                i <= rows@.len(),
            decreases rows@.len() - i,
        {
            let f = Self::map_file_type(&rows[i][0], &rows[i][1])?;
            out.push(f);
            i = i + 1;
        }
        Ok(out)
    }

    /// Numbers of folders and of notes directly under `parent_id` (the root when
    /// none); notes are counted only for `user_id` when one is given, folders for all.
    pub fn get_child_count(&self, parent_id: Option<&str>, user_id: Option<&str>) -> (r: Result<
        (usize, usize),
        StoreError,
    >) {
        let (folders, notes) = match (parent_id, user_id) {
            (Some(pid), Some(uid)) => {
                let args = vec![own(pid), own(uid)];
                let pargs = vec![own(pid)];
                (
                    self.count("SELECT COUNT(*) FROM folders WHERE parent_id = ?1", &pargs)?,
                    self.count("SELECT COUNT(*) FROM notes WHERE parent_id = ?1 AND user_id = ?2", &args)?,
                )
            },
            (Some(pid), None) => {
                let args = vec![own(pid)];
                (
                    self.count("SELECT COUNT(*) FROM folders WHERE parent_id = ?1", &args)?,
                    self.count("SELECT COUNT(*) FROM notes WHERE parent_id = ?1", &args)?,
                )
            },
            (None, Some(uid)) => {
                let args = vec![own(uid)];
                let no_args: Vec<Option<String>> = Vec::new();
                (
                    self.count("SELECT COUNT(*) FROM folders WHERE parent_id IS NULL", &no_args)?,
                    self.count("SELECT COUNT(*) FROM notes WHERE parent_id IS NULL AND user_id = ?1", &args)?,
                )
            },
            (None, None) => {
                let args: Vec<Option<String>> = Vec::new();
                (
                    self.count("SELECT COUNT(*) FROM folders WHERE parent_id IS NULL", &args)?,
                    self.count("SELECT COUNT(*) FROM notes WHERE parent_id IS NULL", &args)?,
                )
            },
        };
        Ok((folders, notes))
    }
}

} // verus!

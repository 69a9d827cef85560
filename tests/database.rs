use notefs::database::{Database, FileType};
use rusqlite::Connection;

const SCHEMA: &str = "
CREATE TABLE folders (
    id TEXT PRIMARY KEY,
    title TEXT NOT NULL,
    parent_id TEXT REFERENCES folders(id),
    user_id TEXT,
    created_at TEXT NOT NULL,
    updated_at TEXT NOT NULL
);
CREATE TABLE notes (
    id TEXT PRIMARY KEY,
    title TEXT NOT NULL,
    abstract TEXT,
    content TEXT NOT NULL,
    syntax TEXT NOT NULL,
    parent_id TEXT REFERENCES folders(id),
    user_id TEXT NOT NULL,
    created_at TEXT NOT NULL,
    updated_at TEXT NOT NULL
);
CREATE TABLE notes_history (id TEXT, title TEXT, content TEXT, log_action TEXT);
CREATE TABLE notes_fts (id TEXT, title TEXT, abstract TEXT, content TEXT);
CREATE TRIGGER notes_ai AFTER INSERT ON notes BEGIN
    INSERT INTO notes_fts (id, title, abstract, content) VALUES (new.id, new.title, new.abstract, new.content);
END;
CREATE TRIGGER notes_au AFTER UPDATE ON notes BEGIN
    UPDATE notes_fts SET title = new.title, abstract = new.abstract, content = new.content WHERE id = new.id;
END;
CREATE TRIGGER notes_ad AFTER DELETE ON notes BEGIN
    DELETE FROM notes_fts WHERE id = old.id;
    INSERT INTO notes_history (id, title, content, log_action) VALUES (old.id, old.title, old.content, 'DELETE');
END;
CREATE VIEW v_folder_id_path_mapping AS
    WITH RECURSIVE tree(id, full_path) AS (
        SELECT id, title FROM folders WHERE parent_id IS NULL
        UNION ALL
        SELECT f.id, tree.full_path || '/' || f.title FROM folders f JOIN tree ON f.parent_id = tree.id
    )
    SELECT id, full_path FROM tree;
CREATE VIEW v_note_id_path_mapping AS
    SELECT n.id AS id,
        CASE WHEN n.parent_id IS NULL THEN n.title || '.' || n.syntax
             ELSE m.full_path || '/' || n.title || '.' || n.syntax END AS full_path
    FROM notes n LEFT JOIN v_folder_id_path_mapping m ON m.id = n.parent_id;
";

const OWNER: &str = "tester";

fn setup_test_database() -> Database {
    let conn = Connection::open_in_memory().expect("Failed to create in-memory database");
    conn.execute_batch(SCHEMA).expect("Failed to initialize database");
    Database::new(conn, Some(chrono_tz::Australia::Sydney))
}

fn path_of(item: &FileType) -> String {
    match item {
        FileType::Directory { path } => path.clone(),
        FileType::File { path } => path.clone(),
    }
}

#[test]
fn test_folder_crud_operations() {
    let mut db = setup_test_database();

    let root_id = db.create_folder("Documents", None, OWNER).expect("Failed to create root folder");
    assert!(!root_id.is_empty());

    let child_id = db
        .create_folder("Projects", Some(&root_id), OWNER)
        .expect("Failed to create child folder");
    assert!(!child_id.is_empty());
    assert_ne!(root_id, child_id);

    let folder = db
        .get_folder_by_id(&root_id, OWNER)
        .expect("Failed to query folder")
        .expect("Root folder not found");
    assert_eq!(folder.id, root_id);
    assert_eq!(folder.title, "Documents");
    assert_eq!(folder.parent_id, None);
    assert!(!folder.created_at.to_string().is_empty());
    assert!(!folder.updated_at.to_string().is_empty());

    let child_folder = db
        .get_folder_by_id(&child_id, OWNER)
        .expect("Failed to query child folder")
        .expect("Child folder not found");
    assert_eq!(child_folder.id, child_id);
    assert_eq!(child_folder.title, "Projects");
    assert_eq!(child_folder.parent_id, Some(root_id.clone()));

    let updated = db.update_folder(&root_id, "My Documents", OWNER).expect("Failed to update folder");
    assert!(updated);

    let updated_folder = db
        .get_folder_by_id(&root_id, OWNER)
        .expect("Failed to query updated folder")
        .expect("Updated folder not found");
    assert_eq!(updated_folder.title, "My Documents");

    let children = db
        .list_folders_by_parent(Some(&root_id), OWNER)
        .expect("Failed to list child folders");
    assert_eq!(children.len(), 1);
    assert_eq!(children[0].title, "Projects");

    let deleted = db.delete_folder(&child_id, OWNER).expect("Failed to delete folder");
    assert!(deleted);

    let deleted_folder = db.get_folder_by_id(&child_id, OWNER).expect("Failed to query deleted folder");
    assert!(deleted_folder.is_none());
}

#[test]
fn test_timezone_functionality() {
    let mut db = setup_test_database();
    let folder_id = db
        .create_folder("Test Timezone", None, OWNER)
        .expect("Failed to create folder for timezone test");
    let folder = db
        .get_folder_by_id(&folder_id, OWNER)
        .expect("Failed to query folder")
        .expect("Folder not found");
    assert!(!folder.created_at.to_string().is_empty());
    assert!(!folder.updated_at.to_string().is_empty());
    assert_eq!(folder.created_at, folder.updated_at);
}

#[test]
fn test_get_note_by_id() {
    let db = setup_test_database();
    let user_id = "test_user_123";
    let note_id = "test_note_456";

    let non_existent = db.get_note_by_id("non_existent_id").expect("Failed to query non-existent note");
    assert!(non_existent.is_none());

    db.connection
        .execute(
            "INSERT INTO notes (id, title, abstract, content, syntax, parent_id, user_id, created_at, updated_at)
             VALUES (?1, ?2, ?3, ?4, ?5, ?6, ?7, ?8, ?8)",
            (
                note_id,
                "Test Note",
                "Test abstract",
                "# Test Content",
                "md",
                None::<String>,
                user_id,
                "2023-01-01 12:00:00",
            ),
        )
        .expect("Failed to insert test note");

    let note = db.get_note_by_id(note_id).expect("Failed to query note").expect("Note not found");
    assert_eq!(note.id, note_id);
    assert_eq!(note.title, "Test Note");
    assert_eq!(note.abstract_text, Some("Test abstract".to_string()));
    assert_eq!(note.content, "# Test Content");
    assert_eq!(note.syntax, "md");
    assert_eq!(note.parent_id, None);
    assert_eq!(note.user_id, user_id);
}

#[test]
fn test_create_note() {
    let mut db = setup_test_database();
    let user_id = "test_user_456";

    let note_id = db
        .create_note("note_1", "My First Note", Some("An abstract"), "# Hello World", "md", None, user_id)
        .expect("Failed to create note");
    assert_eq!(note_id, "note_1");

    let note = db
        .get_note_by_id("note_1")
        .expect("Failed to query created note")
        .expect("Created note not found");
    assert_eq!(note.title, "My First Note");
    assert_eq!(note.abstract_text, Some("An abstract".to_string()));
    assert_eq!(note.content, "# Hello World");
    assert_eq!(note.syntax, "md");
    assert_eq!(note.user_id, user_id);

    let folder_id = db.create_folder("Notes Folder", None, user_id).expect("Failed to create folder");
    let note_id2 = db
        .create_note("note_2", "Second Note", None, "Some content", "txt", Some(&folder_id), user_id)
        .expect("Failed to create note with parent");
    let note2 = db
        .get_note_by_id(&note_id2)
        .expect("Failed to query second note")
        .expect("Second note not found");
    assert_eq!(note2.parent_id, Some(folder_id));
    assert_eq!(note2.abstract_text, None);
    assert_eq!(note2.syntax, "txt");
}

#[test]
fn test_update_note_content() {
    let mut db = setup_test_database();
    let user_id = "test_user_789";
    let note_id = db
        .create_note(
            "update_test",
            "Original Title",
            Some("Original abstract"),
            "Original content",
            "md",
            None,
            user_id,
        )
        .expect("Failed to create note for update test");

    let updated = db
        .update_note(&note_id, "Updated Title", Some("Updated abstract"), "Updated content", "rst")
        .expect("Failed to update note");
    assert!(updated);
    let note = db
        .get_note_by_id(&note_id)
        .expect("Failed to query updated note")
        .expect("Updated note not found");
    assert_eq!(note.title, "Updated Title");
    assert_eq!(note.abstract_text, Some("Updated abstract".to_string()));
    assert_eq!(note.content, "Updated content");
    assert_eq!(note.syntax, "rst");

    let updated2 = db
        .update_note(&note_id, "Final Title", None, "Final content", "md")
        .expect("Failed to update note with None abstract");
    assert!(updated2);
    let note2 = db
        .get_note_by_id(&note_id)
        .expect("Failed to query updated note")
        .expect("Updated note not found");
    assert_eq!(note2.abstract_text, None);

    let not_updated = db
        .update_note("non_existent", "Title", None, "Content", "md")
        .expect("Failed to update non-existent note");
    assert!(!not_updated);
}

#[test]
fn test_update_note_parent() {
    let mut db = setup_test_database();
    let user_id = "test_user_parent";
    let note_id = db
        .create_note("parent_test", "Test Note", None, "Content", "md", None, user_id)
        .expect("Failed to create note for parent test");
    let folder1_id = db.create_folder("Folder 1", None, user_id).expect("Failed to create folder 1");
    let folder2_id = db.create_folder("Folder 2", None, user_id).expect("Failed to create folder 2");

    let updated = db.update_note_parent(&note_id, Some(&folder1_id)).expect("Failed to update note parent");
    assert!(updated);
    let note = db.get_note_by_id(&note_id).expect("Failed to query note").expect("Note not found");
    assert_eq!(note.parent_id, Some(folder1_id.clone()));

    let updated2 = db
        .update_note_parent(&note_id, Some(&folder2_id))
        .expect("Failed to update note parent to folder 2");
    assert!(updated2);
    let note2 = db.get_note_by_id(&note_id).expect("Failed to query note").expect("Note not found");
    assert_eq!(note2.parent_id, Some(folder2_id));

    let updated3 = db.update_note_parent(&note_id, None).expect("Failed to update note parent to None");
    assert!(updated3);
    let note3 = db.get_note_by_id(&note_id).expect("Failed to query note").expect("Note not found");
    assert_eq!(note3.parent_id, None);

    let not_updated = db
        .update_note_parent("non_existent", Some(&folder1_id))
        .expect("Failed to update non-existent note parent");
    assert!(!not_updated);
}

#[test]
fn test_delete_note() {
    let mut db = setup_test_database();
    let user_id = "test_user_delete";
    let note_id = db
        .create_note("delete_test", "Delete Me", Some("Abstract"), "Content to delete", "md", None, user_id)
        .expect("Failed to create note for delete test");

    let note = db
        .get_note_by_id(&note_id)
        .expect("Failed to query note before delete")
        .expect("Note should exist before delete");
    assert_eq!(note.title, "Delete Me");

    let deleted = db.delete_note(&note_id).expect("Failed to delete note");
    assert!(deleted);
    let deleted_note = db.get_note_by_id(&note_id).expect("Failed to query deleted note");
    assert!(deleted_note.is_none());

    let mut stmt = db
        .connection
        .prepare("SELECT COUNT(*) FROM notes_history WHERE id = ?1 AND log_action = 'DELETE'")
        .expect("Failed to prepare history query");
    let count: i64 = stmt.query_row([&note_id], |row| row.get(0)).expect("Failed to query history count");
    assert_eq!(count, 1, "Note should be in history after deletion");
    drop(stmt);

    let not_deleted = db.delete_note("non_existent").expect("Failed to delete non-existent note");
    assert!(!not_deleted);
}

#[test]
fn test_list_notes_by_parent() {
    let mut db = setup_test_database();
    let user_id = "test_user_list";
    let folder_id = db.create_folder("Test Folder", None, user_id).expect("Failed to create folder");
    db.create_note("note1", "Note 1", None, "Content 1", "md", Some(&folder_id), user_id)
        .expect("Failed to create note 1");
    db.create_note("note2", "Note 2", None, "Content 2", "txt", Some(&folder_id), user_id)
        .expect("Failed to create note 2");
    db.create_note("note3", "Root Note", None, "Root content", "md", None, user_id)
        .expect("Failed to create root note");
    db.create_note("note4", "Other User", None, "Content", "md", Some(&folder_id), "other_user")
        .expect("Failed to create note for other user");

    let folder_notes = db
        .list_notes_by_parent(Some(&folder_id), user_id)
        .expect("Failed to list notes in folder");
    assert_eq!(folder_notes.len(), 2);
    let titles: Vec<&str> = folder_notes.iter().map(|n| n.title.as_str()).collect();
    assert!(titles.contains(&"Note 1"));
    assert!(titles.contains(&"Note 2"));
    assert!(!titles.contains(&"Other User"));

    let root_notes = db.list_notes_by_parent(None, user_id).expect("Failed to list root notes");
    assert_eq!(root_notes.len(), 1);
    assert_eq!(root_notes[0].title, "Root Note");

    let empty_folder_id = db.create_folder("Empty Folder", None, user_id).expect("Failed to create empty folder");
    let empty_notes = db
        .list_notes_by_parent(Some(&empty_folder_id), user_id)
        .expect("Failed to list notes in empty folder");
    assert_eq!(empty_notes.len(), 0);
}

#[test]
fn test_fts_triggers() {
    let mut db = setup_test_database();
    let user_id = "fts_test_user";
    let note_id = db
        .create_note(
            "fts_test",
            "Searchable Note",
            Some("This is searchable"),
            "Content with keywords",
            "md",
            None,
            user_id,
        )
        .expect("Failed to create note for FTS test");

    let count: i64 = db
        .connection
        .prepare("SELECT COUNT(*) FROM notes_fts WHERE id = ?1")
        .expect("Failed to prepare FTS query")
        .query_row([&note_id], |row| row.get(0))
        .expect("Failed to query FTS count");
    assert_eq!(count, 1, "Note should be in FTS table after creation");

    db.update_note(&note_id, "Updated Searchable", Some("Updated abstract"), "Updated content", "md")
        .expect("Failed to update note");
    let title: String = db
        .connection
        .prepare("SELECT title FROM notes_fts WHERE id = ?1")
        .expect("Failed to prepare FTS query")
        .query_row([&note_id], |row| row.get(0))
        .expect("Failed to query FTS title");
    assert_eq!(title, "Updated Searchable", "FTS should reflect updated title");

    db.delete_note(&note_id).expect("Failed to delete note");
    let count: i64 = db
        .connection
        .prepare("SELECT COUNT(*) FROM notes_fts WHERE id = ?1")
        .expect("Failed to prepare FTS query")
        .query_row([&note_id], |row| row.get(0))
        .expect("Failed to query FTS count");
    assert_eq!(count, 0, "Note should be removed from FTS table after deletion");
}

#[test]
fn test_folder_path_resolution() {
    let mut db = setup_test_database();
    let docs_id = db.create_folder("Documents", None, OWNER).expect("Failed to create Documents folder");
    let projects_id = db
        .create_folder("Projects", Some(&docs_id), OWNER)
        .expect("Failed to create Projects folder");
    let myproject_id = db
        .create_folder("MyProject", Some(&projects_id), OWNER)
        .expect("Failed to create MyProject folder");

    let docs_path = db
        .get_folder_path_by_id(&docs_id)
        .expect("Failed to get Documents path")
        .expect("Documents path should exist");
    assert_eq!(docs_path, "Documents");
    let projects_path = db
        .get_folder_path_by_id(&projects_id)
        .expect("Failed to get Projects path")
        .expect("Projects path should exist");
    assert_eq!(projects_path, "Documents/Projects");
    let myproject_path = db
        .get_folder_path_by_id(&myproject_id)
        .expect("Failed to get MyProject path")
        .expect("MyProject path should exist");
    assert_eq!(myproject_path, "Documents/Projects/MyProject");

    let docs_id_resolved = db
        .get_folder_id_by_path("Documents", OWNER)
        .expect("Failed to resolve Documents ID")
        .expect("Documents ID should exist");
    assert_eq!(docs_id_resolved, docs_id);
    let projects_id_resolved = db
        .get_folder_id_by_path("Documents/Projects", OWNER)
        .expect("Failed to resolve Projects ID")
        .expect("Projects ID should exist");
    assert_eq!(projects_id_resolved, projects_id);
    let myproject_id_resolved = db
        .get_folder_id_by_path("Documents/Projects/MyProject", OWNER)
        .expect("Failed to resolve MyProject ID")
        .expect("MyProject ID should exist");
    assert_eq!(myproject_id_resolved, myproject_id);

    let non_existent_path = db
        .get_folder_path_by_id("non_existent_id")
        .expect("Failed to query non-existent folder path");
    assert!(non_existent_path.is_none());
    let non_existent_id = db
        .get_folder_id_by_path("Non/Existent/Path", OWNER)
        .expect("Failed to query non-existent folder ID");
    assert!(non_existent_id.is_none());
}

#[test]
fn test_note_path_resolution() {
    let mut db = setup_test_database();
    let user_id = "path_test_user";
    let work_id = db.create_folder("Work", None, user_id).expect("Failed to create Work folder");
    let projects_id = db
        .create_folder("Projects", Some(&work_id), user_id)
        .expect("Failed to create Projects folder");

    let root_note_id = db
        .create_note("root_note", "README", None, "Root readme content", "md", None, user_id)
        .expect("Failed to create root note");
    let work_note_id = db
        .create_note("work_note", "agenda", None, "Work agenda", "org", Some(&work_id), user_id)
        .expect("Failed to create work note");
    let project_note_id = db
        .create_note("project_note", "specification", None, "Project spec", "txt", Some(&projects_id), user_id)
        .expect("Failed to create project note");

    let root_path = db
        .get_note_path_by_id(&root_note_id)
        .expect("Failed to get root note path")
        .expect("Root note path should exist");
    assert_eq!(root_path, "README.md");
    let work_path = db
        .get_note_path_by_id(&work_note_id)
        .expect("Failed to get work note path")
        .expect("Work note path should exist");
    assert_eq!(work_path, "Work/agenda.org");
    let project_path = db
        .get_note_path_by_id(&project_note_id)
        .expect("Failed to get project note path")
        .expect("Project note path should exist");
    assert_eq!(project_path, "Work/Projects/specification.txt");

    let root_id_resolved = db
        .get_note_id_by_path("README.md")
        .expect("Failed to resolve root note ID")
        .expect("Root note ID should exist");
    assert_eq!(root_id_resolved, root_note_id);
    let work_id_resolved = db
        .get_note_id_by_path("Work/agenda.org")
        .expect("Failed to resolve work note ID")
        .expect("Work note ID should exist");
    assert_eq!(work_id_resolved, work_note_id);
    let project_id_resolved = db
        .get_note_id_by_path("Work/Projects/specification.txt")
        .expect("Failed to resolve project note ID")
        .expect("Project note ID should exist");
    assert_eq!(project_id_resolved, project_note_id);

    let non_existent_path = db
        .get_note_path_by_id("non_existent_note")
        .expect("Failed to query non-existent note path");
    assert!(non_existent_path.is_none());
    let non_existent_id = db
        .get_note_id_by_path("Non/Existent/note.md")
        .expect("Failed to query non-existent note ID");
    assert!(non_existent_id.is_none());
}

#[test]
fn test_path_resolution_edge_cases() {
    let mut db = setup_test_database();
    let user_id = "edge_case_user";

    let special_id = db
        .create_folder("Folder-With_Special.Chars", None, user_id)
        .expect("Failed to create folder with special chars");
    let special_path = db
        .get_folder_path_by_id(&special_id)
        .expect("Failed to get special folder path")
        .expect("Special folder path should exist");
    assert_eq!(special_path, "Folder-With_Special.Chars");
    let special_id_resolved = db
        .get_folder_id_by_path("Folder-With_Special.Chars", user_id)
        .expect("Failed to resolve special folder ID")
        .expect("Special folder ID should exist");
    assert_eq!(special_id_resolved, special_id);

    let py_note_id = db
        .create_note("python_script", "script", None, "print('hello')", "py", None, user_id)
        .expect("Failed to create Python note");
    let py_path = db
        .get_note_path_by_id(&py_note_id)
        .expect("Failed to get Python note path")
        .expect("Python note path should exist");
    assert_eq!(py_path, "script.py");
    let py_id_resolved = db
        .get_note_id_by_path("script.py")
        .expect("Failed to resolve Python note ID")
        .expect("Python note ID should exist");
    assert_eq!(py_id_resolved, py_note_id);

    let mut current_parent: Option<String> = None;
    let mut expected_path = String::new();
    for i in 1..=5 {
        let folder_name = format!("Level{}", i);
        let folder_id = db
            .create_folder(&folder_name, current_parent.as_deref(), user_id)
            .expect("Failed to create nested folder");
        if expected_path.is_empty() {
            expected_path = folder_name.clone();
        } else {
            expected_path = format!("{}/{}", expected_path, folder_name);
        }
        let resolved_path = db
            .get_folder_path_by_id(&folder_id)
            .expect("Failed to get nested folder path")
            .expect("Nested folder path should exist");
        assert_eq!(resolved_path, expected_path);
        current_parent = Some(folder_id);
    }

    let deep_note_id = db
        .create_note("deep_note", "deep", None, "Deep content", "md", current_parent.as_deref(), user_id)
        .expect("Failed to create deep note");
    let deep_path = db
        .get_note_path_by_id(&deep_note_id)
        .expect("Failed to get deep note path")
        .expect("Deep note path should exist");
    assert_eq!(deep_path, "Level1/Level2/Level3/Level4/Level5/deep.md");
}

#[test]
fn test_get_folder_contents_recursive() {
    let mut db = setup_test_database();
    let user_id = "recursive_test_user";
    let root_id = db.create_folder("Root", None, user_id).expect("Failed to create Root folder");
    let docs_id = db.create_folder("Documents", Some(&root_id), user_id).expect("Failed to create Documents folder");
    let projects_id = db
        .create_folder("Projects", Some(&docs_id), user_id)
        .expect("Failed to create Projects folder");
    let subprojects_id = db
        .create_folder("SubProjects", Some(&projects_id), user_id)
        .expect("Failed to create SubProjects folder");
    let work_id = db.create_folder("Work", Some(&root_id), user_id).expect("Failed to create Work folder");

    db.create_note("readme", "readme", None, "Root readme", "md", Some(&root_id), user_id)
        .expect("Failed to create root readme");
    db.create_note("notes", "notes", None, "Doc notes", "md", Some(&docs_id), user_id)
        .expect("Failed to create docs notes");
    db.create_note("project1", "project1", None, "Project content", "md", Some(&projects_id), user_id)
        .expect("Failed to create project1");
    db.create_note("subproject", "subproject", None, "Sub content", "txt", Some(&subprojects_id), user_id)
        .expect("Failed to create subproject");
    db.create_note("agenda", "agenda", None, "Work agenda", "org", Some(&work_id), user_id)
        .expect("Failed to create work agenda");

    let contents = db
        .get_folder_contents_recursive(&root_id, user_id)
        .expect("Failed to get recursive contents");
    let paths: Vec<String> = contents.iter().map(path_of).collect();
    assert!(paths.contains(&"Documents".to_string()));
    assert!(paths.contains(&"Documents/Projects".to_string()));
    assert!(paths.contains(&"Documents/Projects/SubProjects".to_string()));
    assert!(paths.contains(&"Work".to_string()));
    assert!(paths.contains(&"readme.md".to_string()));
    assert!(paths.contains(&"Documents/notes.md".to_string()));
    assert!(paths.contains(&"Documents/Projects/project1.md".to_string()));
    assert!(paths.contains(&"Documents/Projects/SubProjects/subproject.txt".to_string()));
    assert!(paths.contains(&"Work/agenda.org".to_string()));

    let directories = contents.iter().filter(|i| matches!(i, FileType::Directory { .. })).count();
    let files = contents.iter().filter(|i| matches!(i, FileType::File { .. })).count();
    assert_eq!(directories, 4);
    assert_eq!(files, 5);

    let docs_contents = db
        .get_folder_contents_recursive(&docs_id, user_id)
        .expect("Failed to get docs contents");
    let docs_paths: Vec<String> = docs_contents.iter().map(path_of).collect();
    assert!(docs_paths.contains(&"Projects".to_string()));
    assert!(docs_paths.contains(&"Projects/SubProjects".to_string()));
    assert!(docs_paths.contains(&"notes.md".to_string()));
    assert!(docs_paths.contains(&"Projects/project1.md".to_string()));
    assert!(docs_paths.contains(&"Projects/SubProjects/subproject.txt".to_string()));
    assert!(!docs_paths.contains(&"Work".to_string()));
    assert!(!docs_paths.contains(&"readme.md".to_string()));
    assert!(!docs_paths.contains(&"Work/agenda.org".to_string()));
}

#[test]
fn test_get_folder_contents_recursive_empty_folder() {
    let mut db = setup_test_database();
    let user_id = "empty_test_user";
    let empty_id = db.create_folder("Empty", None, user_id).expect("Failed to create empty folder");
    let contents = db
        .get_folder_contents_recursive(&empty_id, user_id)
        .expect("Failed to get empty folder contents");
    assert_eq!(contents.len(), 0);
}

#[test]
fn test_get_folder_contents_recursive_user_filtering() {
    let mut db = setup_test_database();
    let user1 = "user1";
    let user2 = "user2";
    let shared_folder_id = db.create_folder("Shared", None, user1).expect("Failed to create shared folder");
    db.create_note("note1", "note1", None, "User 1 content", "md", Some(&shared_folder_id), user1)
        .expect("Failed to create user1 note");
    db.create_note("note2", "note2", None, "User 2 content", "md", Some(&shared_folder_id), user2)
        .expect("Failed to create user2 note");

    let user1_contents = db
        .get_folder_contents_recursive(&shared_folder_id, user1)
        .expect("Failed to get user1 contents");
    let user2_contents = db
        .get_folder_contents_recursive(&shared_folder_id, user2)
        .expect("Failed to get user2 contents");
    assert_eq!(user1_contents.len(), 1);
    assert_eq!(user2_contents.len(), 1);
    match &user1_contents[0] {
        FileType::File { path } => assert_eq!(path, "note1.md"),
        _ => panic!("Expected file, got directory"),
    }
    match &user2_contents[0] {
        FileType::File { path } => assert_eq!(path, "note2.md"),
        _ => panic!("Expected file, got directory"),
    }
}

#[test]
fn test_get_folder_contents_recursive_single_level() {
    let mut db = setup_test_database();
    let user_id = "single_level_user";
    let folder_id = db.create_folder("SingleLevel", None, user_id).expect("Failed to create folder");
    db.create_folder("ChildFolder", Some(&folder_id), user_id).expect("Failed to create child folder");
    db.create_note("file1", "file1", None, "Content 1", "txt", Some(&folder_id), user_id)
        .expect("Failed to create file1");
    db.create_note("file2", "file2", None, "Content 2", "md", Some(&folder_id), user_id)
        .expect("Failed to create file2");

    let contents = db
        .get_folder_contents_recursive(&folder_id, user_id)
        .expect("Failed to get single level contents");
    assert_eq!(contents.len(), 3);
    let paths: Vec<String> = contents.iter().map(path_of).collect();
    assert!(paths.contains(&"ChildFolder".to_string()));
    assert!(paths.contains(&"file1.txt".to_string()));
    assert!(paths.contains(&"file2.md".to_string()));
}

#[test]
fn test_get_child_count() {
    let mut db = setup_test_database();
    let user_id = "count_test_user";
    let other_user = "other_count_user";
    let parent_folder_id = db.create_folder("Parent", None, user_id).expect("Failed to create parent folder");
    db.create_folder("Child1", Some(&parent_folder_id), user_id).expect("Failed to create child folder 1");
    db.create_folder("Child2", Some(&parent_folder_id), user_id).expect("Failed to create child folder 2");
    db.create_note("note1", "Note 1", None, "Content 1", "md", Some(&parent_folder_id), user_id)
        .expect("Failed to create note 1");
    db.create_note("note2", "Note 2", None, "Content 2", "txt", Some(&parent_folder_id), user_id)
        .expect("Failed to create note 2");
    db.create_note("note3", "Note 3", None, "Content 3", "md", Some(&parent_folder_id), other_user)
        .expect("Failed to create note 3 for other user");
    db.create_note("root1", "Root 1", None, "Root content", "md", None, user_id)
        .expect("Failed to create root note 1");
    db.create_note("root2", "Root 2", None, "Root content", "org", None, other_user)
        .expect("Failed to create root note 2 for other user");

    let (folder_count, note_count) = db
        .get_child_count(Some(&parent_folder_id), Some(user_id))
        .expect("Failed to get child count for specific user");
    assert_eq!(folder_count, 2);
    assert_eq!(note_count, 2);

    let (folder_count, note_count) = db
        .get_child_count(Some(&parent_folder_id), Some(other_user))
        .expect("Failed to get child count for other user");
    assert_eq!(folder_count, 2);
    assert_eq!(note_count, 1);

    let (folder_count, note_count) = db
        .get_child_count(Some(&parent_folder_id), None)
        .expect("Failed to get child count without user filter");
    assert_eq!(folder_count, 2);
    assert_eq!(note_count, 3);

    let empty_folder_id = db.create_folder("Empty", None, user_id).expect("Failed to create empty folder");
    let (folder_count, note_count) = db
        .get_child_count(Some(&empty_folder_id), Some(user_id))
        .expect("Failed to get empty folder child count");
    assert_eq!(folder_count, 0);
    assert_eq!(note_count, 0);

    let (folder_count, note_count) = db
        .get_child_count(None, Some(user_id))
        .expect("Failed to get root count for specific user");
    assert_eq!(folder_count, 2);
    assert_eq!(note_count, 1);

    let (folder_count, note_count) = db
        .get_child_count(None, None)
        .expect("Failed to get root count without user filter");
    assert_eq!(folder_count, 2);
    assert_eq!(note_count, 2);
}

#[test]
fn test_get_child_count_edge_cases() {
    let mut db = setup_test_database();
    let user_id = "edge_test_user";

    let (folder_count, note_count) = db
        .get_child_count(Some("non_existent_id"), Some(user_id))
        .expect("Failed to get count for non-existent folder");
    assert_eq!(folder_count, 0);
    assert_eq!(note_count, 0);

    let folder_id = db.create_folder("Test", None, user_id).expect("Failed to create test folder");
    db.create_note("test_note", "Test", None, "Content", "md", Some(&folder_id), user_id)
        .expect("Failed to create test note");

    let (folder_count, note_count) = db
        .get_child_count(Some(&folder_id), Some("non_existent_user"))
        .expect("Failed to get count for non-existent user");
    assert_eq!(folder_count, 0);
    assert_eq!(note_count, 0);

    let mut current_parent = Some(folder_id.clone());
    for i in 1..=3 {
        let child_id = db
            .create_folder(&format!("Level{}", i), current_parent.as_deref(), user_id)
            .expect("Failed to create nested folder");
        current_parent = Some(child_id);
    }

    let (folder_count, note_count) = db
        .get_child_count(Some(&folder_id), Some(user_id))
        .expect("Failed to get count for nested structure");
    assert_eq!(folder_count, 1);
    assert_eq!(note_count, 1);
}

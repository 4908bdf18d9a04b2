use specmaker::models::{CreateMessageInput, CreateProjectInput};
use specmaker::store::{
    create_conversation, create_project, delete_project, get_conversation_messages, get_project,
    get_projects, Database, StoreError,
};

fn sample_input(name: &str) -> CreateProjectInput {
    CreateProjectInput {
        name: name.to_string(),
        description: format!("description of {}", name),
        industry: Some("software".to_string()),
        target_audience: Some("builders".to_string()),
    }
}

#[test]
fn create_then_get_returns_created() {
    let mut db = Database::new_in_memory().unwrap();
    let created = create_project(&mut db, sample_input("alpha")).unwrap();
    let fetched = get_project(&db, created.id.clone()).unwrap();
    assert_eq!(fetched, created);
}

#[test]
fn create_project_fills_fixed_fields() {
    let mut db = Database::new_in_memory().unwrap();
    let p = create_project(&mut db, sample_input("alpha")).unwrap();
    assert_eq!(p.id.len(), 36);
    assert_eq!(p.name, "alpha");
    assert_eq!(p.description, "description of alpha");
    assert_eq!(p.industry, Some("software".to_string()));
    assert_eq!(p.target_audience, Some("builders".to_string()));
    assert_eq!(p.status, "ideation");
    assert_eq!(p.created_at, p.updated_at);
}

#[test]
fn projects_listed_most_recent_first() {
    let mut db = Database::new_in_memory().unwrap();
    let a = create_project(&mut db, sample_input("first")).unwrap();
    let b = create_project(&mut db, sample_input("second")).unwrap();
    let c = create_project(&mut db, sample_input("third")).unwrap();
    let listed = get_projects(&db).unwrap();
    assert_eq!(listed.len(), 3);
    assert_eq!(listed[0], c);
    assert_eq!(listed[1], b);
    assert_eq!(listed[2], a);
}

#[test]
fn get_project_missing_id_is_not_found() {
    let mut db = Database::new_in_memory().unwrap();
    create_project(&mut db, sample_input("alpha")).unwrap();
    let r = get_project(&db, "no-such-id".to_string());
    assert_eq!(r, Err(StoreError::NotFound));
}

#[test]
fn delete_project_on_nonexistent_id_succeeds() {
    let mut db = Database::new_in_memory().unwrap();
    assert_eq!(delete_project(&mut db, "no-such-id".to_string()), Ok(()));
}

#[test]
fn delete_project_removes_the_row() {
    let mut db = Database::new_in_memory().unwrap();
    let kept = create_project(&mut db, sample_input("kept")).unwrap();
    let gone = create_project(&mut db, sample_input("gone")).unwrap();
    assert_eq!(delete_project(&mut db, gone.id.clone()), Ok(()));
    assert_eq!(get_project(&db, gone.id.clone()), Err(StoreError::NotFound));
    let listed = get_projects(&db).unwrap();
    assert_eq!(listed, vec![kept]);
}

#[test]
fn create_conversation_fills_fixed_fields() {
    let mut db = Database::new_in_memory().unwrap();
    let p = create_project(&mut db, sample_input("alpha")).unwrap();
    let v = create_conversation(&mut db, p.id.clone()).unwrap();
    assert_eq!(v.id.len(), 36);
    assert_eq!(v.project_id, p.id);
    assert_eq!(v.phase, "initial_analysis");
}

#[test]
fn messages_listed_in_insertion_order() {
    let mut db = Database::new_in_memory().unwrap();
    let v = create_conversation(&mut db, "project-1".to_string()).unwrap();
    let mut appended = Vec::new();
    for (role, content) in [("user", "one"), ("assistant", "two"), ("user", "three")] {
        let m = specmaker::store::append_message(
            &mut db,
            CreateMessageInput {
                conversation_id: v.id.clone(),
                role: role.to_string(),
                content: content.to_string(),
                metadata: None,
            },
        )
        .unwrap();
        appended.push(m);
    }
    let listed = get_conversation_messages(&db, v.id.clone()).unwrap();
    assert_eq!(listed, appended);
}

#[test]
fn messages_of_other_conversations_are_not_listed() {
    let mut db = Database::new_in_memory().unwrap();
    let here = specmaker::store::append_message(
        &mut db,
        CreateMessageInput {
            conversation_id: "conv-a".to_string(),
            role: "user".to_string(),
            content: "mine".to_string(),
            metadata: Some("{\"k\":1}".to_string()),
        },
    )
    .unwrap();
    specmaker::store::append_message(
        &mut db,
        CreateMessageInput {
            conversation_id: "conv-b".to_string(),
            role: "user".to_string(),
            content: "other".to_string(),
            metadata: None,
        },
    )
    .unwrap();
    let listed = get_conversation_messages(&db, "conv-a".to_string()).unwrap();
    assert_eq!(listed, vec![here]);
}

#[test]
fn from_connection_accepts_a_fresh_database() {
    let conn = rusqlite::Connection::open_in_memory().unwrap();
    let mut db = Database::from_connection(conn).unwrap();
    let p = create_project(&mut db, sample_input("alpha")).unwrap();
    assert_eq!(get_project(&db, p.id.clone()), Ok(p));
}

#[test]
fn from_connection_rejects_a_foreign_table_shape() {
    let conn = rusqlite::Connection::open_in_memory().unwrap();
    conn.execute_batch("CREATE TABLE projects (id TEXT PRIMARY KEY);")
        .unwrap();
    let r = Database::from_connection(conn);
    assert!(matches!(r, Err(StoreError::Database(_))));
}

#[test]
fn from_connection_rejects_a_database_with_a_trigger() {
    let conn = rusqlite::Connection::open_in_memory().unwrap();
    conn.execute_batch(
        "CREATE TABLE projects (id TEXT PRIMARY KEY, name TEXT NOT NULL, description TEXT NOT NULL, industry TEXT, target_audience TEXT, status TEXT NOT NULL, created_at TEXT NOT NULL, updated_at TEXT NOT NULL);CREATE TRIGGER touch AFTER INSERT ON projects BEGIN DELETE FROM projects; END;",
    )
    .unwrap();
    let r = Database::from_connection(conn);
    assert!(matches!(r, Err(StoreError::Database(_))));
}

#[test]
fn from_connection_rejects_a_database_with_an_extra_table() {
    let conn = rusqlite::Connection::open_in_memory().unwrap();
    conn.execute_batch("CREATE TABLE extra (x TEXT);").unwrap();
    let r = Database::from_connection(conn);
    assert!(matches!(r, Err(StoreError::Database(_))));
}

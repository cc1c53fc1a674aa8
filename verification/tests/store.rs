use comment_api::error::ApiError;
use comment_api::handlers::{
    acknowledge_delete, add_comment, delete_comment, get_comments, publish_comment, stage_comment, DeleteStep,
    NewComment,
};
use comment_api::models::{Comment, CommentInput, CommentOutput, DeleteCommentInput};
use rusqlite::Connection;

fn open_store() -> Connection {
    let conn = Connection::open_in_memory().unwrap();
    conn.execute(
        "CREATE TABLE IF NOT EXISTS comments (
            id          INTEGER PRIMARY KEY AUTOINCREMENT,
            post        TEXT NOT NULL,
            parent      INTEGER,
            content     TEXT NOT NULL,
            writer      TEXT NOT NULL,
            password    TEXT NOT NULL,
            user_uuid   TEXT NOT NULL,
            ip          TEXT,
            created_at  TEXT NOT NULL,
            deleted     BOOLEAN DEFAULT 0
        )",
        [],
    )
    .unwrap();
    conn
}

fn insert(conn: &Connection, row: &NewComment) -> Option<i64> {
    conn.execute(
        "INSERT INTO comments (post, parent, content, writer, password, user_uuid, ip, created_at, deleted)
         VALUES (?1, ?2, ?3, ?4, ?5, ?6, ?7, ?8, ?9)",
        (
            &row.post,
            &row.parent,
            &row.content,
            &row.writer,
            &row.password_hash,
            &row.user_uuid,
            &row.ip,
            &row.created_at,
            row.deleted,
        ),
    )
    .ok()
    .map(|_| conn.last_insert_rowid())
}

fn list_by_post(conn: &Connection, post: &str) -> Option<Vec<Comment>> {
    let mut stmt = conn
        .prepare(
            "SELECT id, parent, content, writer, user_uuid, created_at, deleted
             FROM comments WHERE post = ?1 ORDER BY created_at ASC",
        )
        .ok()?;
    let rows = stmt
        .query_map([post], |row| {
            Ok(Comment::listed(
                post.to_string(),
                row.get(0)?,
                row.get(1)?,
                row.get(2)?,
                row.get(3)?,
                row.get(4)?,
                row.get(5)?,
                row.get(6)?,
            ))
        })
        .ok()?;
    rows.collect::<Result<Vec<Comment>, rusqlite::Error>>().ok()
}

fn password_hash(conn: &Connection, id: i64) -> Option<String> {
    conn.query_row("SELECT password FROM comments WHERE id = ?1", [id], |row| row.get(0)).ok()
}

fn mark_deleted(conn: &Connection, id: i64) -> bool {
    conn.execute("UPDATE comments SET deleted = 1 WHERE id = ?1", [id]).is_ok()
}

fn is_deleted(conn: &Connection, id: i64) -> bool {
    conn.query_row("SELECT deleted FROM comments WHERE id = ?1", [id], |row| row.get(0)).unwrap()
}

fn request(post: &str, parent: Option<i64>, content: &str, password: &str) -> CommentInput {
    CommentInput {
        post: post.to_string(),
        parent,
        content: content.to_string(),
        writer: "ann".to_string(),
        password: password.to_string(),
    }
}

/// A whole add request: the library's steps around one insert.
fn add(conn: &Connection, input: CommentInput) -> Result<Comment, ApiError> {
    let row = add_comment(input)?;
    let inserted = insert(conn, &row);
    publish_comment(row, inserted)
}

/// An add whose stamps are given, with a password that nobody needs.
fn add_at(conn: &Connection, post: &str, parent: Option<i64>, content: &str, created_at: &str) -> i64 {
    let row = stage_comment(
        request(post, parent, content, ""),
        "00000000-0000-4000-8000-000000000000".to_string(),
        created_at.to_string(),
        "unused".to_string(),
    );
    insert(conn, &row).unwrap()
}

/// A whole list request.
fn list(conn: &Connection, post: &str) -> Result<Vec<CommentOutput>, ApiError> {
    get_comments(list_by_post(conn, post))
}

/// A whole delete request: the lookup, the library's decision, the write.
fn delete(conn: &Connection, id: i64, password: &str) -> Result<String, ApiError> {
    let stored = password_hash(conn, id);
    match delete_comment(id, stored, DeleteCommentInput { password: password.to_string() }) {
        DeleteStep::Refuse(e) => Err(e),
        DeleteStep::MarkDeleted(id) => {
            let written = mark_deleted(conn, id);
            acknowledge_delete(written).map(|ack| ack.status)
        }
    }
}

#[test]
fn stored_thread_lists_root_with_reply_and_other_thread_is_empty() {
    let conn = open_store();
    let a = add(&conn, request("p1", None, "A", "pw-a")).unwrap();
    let b = add(&conn, request("p1", Some(a.id), "B", "pw-b")).unwrap();
    let tree = list(&conn, "p1").unwrap();
    assert_eq!(tree.len(), 1);
    assert_eq!(tree[0].id, a.id);
    assert_eq!(tree[0].content, "A");
    assert_eq!(tree[0].user_uuid, a.user_uuid);
    assert_eq!(tree[0].created_at, a.created_at);
    assert_eq!(tree[0].children.len(), 1);
    assert_eq!(tree[0].children[0].id, b.id);
    assert_eq!(tree[0].children[0].content, "B");
    let other = list(&conn, "p2").unwrap();
    assert!(other.is_empty());
}

#[test]
fn stored_record_keeps_the_hash_and_answers_a_blank_password() {
    let conn = open_store();
    let a = add(&conn, request("news", None, "A", "open sesame")).unwrap();
    assert_eq!(a.password, "");
    assert_eq!(a.ip, None);
    assert!(!a.deleted);
    let stored = password_hash(&conn, a.id).unwrap();
    assert_eq!(stored.len(), 60);
    assert_ne!(stored, "open sesame");
    assert_eq!(delete(&conn, a.id, "open sesame"), Ok("deleted".to_string()));
    assert!(is_deleted(&conn, a.id));
}

#[test]
fn stored_comment_resists_wrong_passwords_and_yields_to_the_right_one() {
    let conn = open_store();
    let a = add(&conn, request("news", None, "A", "right")).unwrap();
    assert_eq!(delete(&conn, a.id, "wrong"), Err(ApiError::Unauthorized));
    assert!(!is_deleted(&conn, a.id));
    assert_eq!(delete(&conn, a.id, "wrong"), Err(ApiError::Unauthorized));
    assert!(!is_deleted(&conn, a.id));
    assert_eq!(delete(&conn, a.id, "right"), Ok("deleted".to_string()));
    assert!(is_deleted(&conn, a.id));
}

#[test]
fn deleting_twice_with_the_right_password_succeeds_twice() {
    let conn = open_store();
    let a = add(&conn, request("news", None, "A", "right")).unwrap();
    assert_eq!(delete(&conn, a.id, "right"), Ok("deleted".to_string()));
    assert!(is_deleted(&conn, a.id));
    assert_eq!(delete(&conn, a.id, "right"), Ok("deleted".to_string()));
    assert!(is_deleted(&conn, a.id));
    let tree = list(&conn, "news").unwrap();
    assert_eq!(tree.len(), 1);
    assert!(tree[0].deleted);
    assert_eq!(tree[0].content, "A");
}

#[test]
fn deleting_an_id_that_was_never_stored_is_not_found() {
    let conn = open_store();
    assert_eq!(delete(&conn, 1, "anything"), Err(ApiError::NotFound));
    let a = add_at(&conn, "news", None, "A", "2024-05-01T10:00:00+00:00");
    assert_eq!(delete(&conn, a + 1, "anything"), Err(ApiError::NotFound));
    assert_eq!(delete(&conn, -1, ""), Err(ApiError::NotFound));
}

#[test]
fn listing_is_ordered_by_creation_time_not_by_id() {
    let conn = open_store();
    let late = add_at(&conn, "news", None, "late", "2024-05-01T10:00:09+00:00");
    let early = add_at(&conn, "news", None, "early", "2024-05-01T10:00:01+00:00");
    let mid = add_at(&conn, "news", None, "mid", "2024-05-01T10:00:05.250+00:00");
    let r2 = add_at(&conn, "news", Some(early), "reply 2", "2024-05-01T10:00:08+00:00");
    let r1 = add_at(&conn, "news", Some(early), "reply 1", "2024-05-01T10:00:02+00:00");
    let tree = list(&conn, "news").unwrap();
    let roots: Vec<i64> = tree.iter().map(|r| r.id).collect();
    assert_eq!(roots, vec![early, mid, late]);
    let replies: Vec<i64> = tree[0].children.iter().map(|c| c.id).collect();
    assert_eq!(replies, vec![r1, r2]);
    for pair in tree.windows(2) {
        assert!(pair[0].created_at <= pair[1].created_at);
    }
    for pair in tree[0].children.windows(2) {
        assert!(pair[0].created_at <= pair[1].created_at);
    }
}

#[test]
fn stored_reply_to_a_reply_is_listed_nowhere() {
    let conn = open_store();
    let a = add_at(&conn, "news", None, "A", "2024-05-01T10:00:00+00:00");
    let b = add_at(&conn, "news", Some(a), "B", "2024-05-01T10:00:01+00:00");
    let c = add_at(&conn, "news", Some(b), "C", "2024-05-01T10:00:02+00:00");
    let tree = list(&conn, "news").unwrap();
    assert_eq!(tree.len(), 1);
    assert_eq!(tree[0].id, a);
    assert_eq!(tree[0].children.len(), 1);
    assert_eq!(tree[0].children[0].id, b);
    assert!(tree.iter().all(|r| r.id != c && r.children.iter().all(|x| x.id != c)));
    // The row itself is stored: only the tree leaves it out.
    assert_eq!(list_by_post(&conn, "news").unwrap().len(), 3);
}

#[test]
fn threads_do_not_mix() {
    let conn = open_store();
    let a = add_at(&conn, "one", None, "A", "2024-05-01T10:00:00+00:00");
    let b = add_at(&conn, "two", Some(a), "B", "2024-05-01T10:00:01+00:00");
    let one = list(&conn, "one").unwrap();
    assert_eq!(one.len(), 1);
    assert!(one[0].children.is_empty());
    let two = list(&conn, "two").unwrap();
    assert!(two.is_empty());
    assert!(b > a);
}

#[test]
fn parent_is_stored_unchecked() {
    let conn = open_store();
    let orphan = add(&conn, request("news", Some(12345), "orphan", "pw")).unwrap();
    assert_eq!(orphan.parent, Some(12345));
    assert!(list(&conn, "news").unwrap().is_empty());
    assert_eq!(list_by_post(&conn, "news").unwrap().len(), 1);
}

#[test]
fn listing_a_store_without_its_table_is_a_storage_failure() {
    let conn = Connection::open_in_memory().unwrap();
    assert!(matches!(list(&conn, "news"), Err(ApiError::Storage)));
    assert!(matches!(add(&conn, request("news", None, "A", "pw")), Err(ApiError::Storage)));
}

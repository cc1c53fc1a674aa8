//! The three requests, as decisions between one exchange with the row store
//! and the next. The caller owns the store: it performs what a step asks for
//! and hands the store's answer to the step that follows.

use crate::error::ApiError;
use crate::models::{Comment, CommentInput, CommentInputView, CommentOutput, CommentView, DeleteCommentInput};
use crate::password::{
    bcrypt_verdict, check_password, checked, hash_password, names_cost, password_matches, HASH_COST,
};
use crate::stamp::{fresh_uuid, is_uuid_text, utc_now};
use crate::tree::{assemble_tree, thread_of};
use vstd::prelude::*;

verus! {

/// The row that an add request asks the store to insert: every column but
/// the id, which the store assigns.
#[derive(Debug)]
pub struct NewComment {
    pub post: String,
    pub parent: Option<i64>,
    pub content: String,
    pub writer: String,
    pub password_hash: String,
    pub user_uuid: String,
    pub ip: Option<String>,
    pub created_at: String,
    pub deleted: bool,
}

/// Mathematical value of a [`NewComment`].
pub struct NewCommentView {
    pub post: Seq<char>,
    pub parent: Option<i64>,
    pub content: Seq<char>,
    pub writer: Seq<char>,
    pub password_hash: Seq<char>,
    pub user_uuid: Seq<char>,
    pub ip: Option<Seq<char>>,
    pub created_at: Seq<char>,
    pub deleted: bool,
}

impl View for NewComment {
    type V = NewCommentView;

    open spec fn view(&self) -> NewCommentView {
        NewCommentView {
            post: self.post@,
            parent: self.parent,
            content: self.content@,
            writer: self.writer@,
            password_hash: self.password_hash@,
            user_uuid: self.user_uuid@,
            ip: match self.ip {
                Some(ip) => Some(ip@),
                None => None,
            },
            created_at: self.created_at@,
            deleted: self.deleted,
        }
    }
}

/// The row for a request `input` stamped with `user_uuid` and `created_at`
/// and guarded by `password_hash`: the client's fields as sent, no address,
/// not deleted. The parent is taken as given, whether or not it exists.
pub open spec fn staged(
    input: CommentInputView,
    user_uuid: Seq<char>,
    created_at: Seq<char>,
    password_hash: Seq<char>,
) -> NewCommentView {
    NewCommentView {
        post: input.post,
        parent: input.parent,
        content: input.content,
        writer: input.writer,
        password_hash,
        user_uuid,
        ip: None,
        created_at,
        deleted: false,
    }
}

/// The record answered for an inserted `row` that the store numbered `id`:
/// the row as stored, but for the password, which is blanked.
pub open spec fn published(row: NewCommentView, id: i64) -> CommentView {
    CommentView {
        id,
        post: row.post,
        parent: row.parent,
        content: row.content,
        writer: row.writer,
        password: Seq::empty(),
        user_uuid: row.user_uuid,
        ip: row.ip,
        created_at: row.created_at,
        deleted: row.deleted,
    }
}

/// Puts a row together from a request and its stamps.
pub fn stage_comment(
    payload: CommentInput,
    user_uuid: String,
    created_at: String,
    password_hash: String,
) -> (row: NewComment)
    ensures
        row@ == staged(payload@, user_uuid@, created_at@, password_hash@),
{
    NewComment {
        post: payload.post,
        parent: payload.parent,
        content: payload.content,
        writer: payload.writer,
        password_hash,
        user_uuid,
        ip: None,
        created_at,
        deleted: false,
    }
}

/// Begins an add request: mints the writer's identifier, reads the clock and
/// hashes the password, in that order.
///
/// The row that comes back is the one for the store to insert. Its stamps
/// are whatever the random source and the clock gave; its hash is a salted
/// bcrypt hash of the configured cost that the request's password verifies
/// against. The only failure is the hashing failure, and whether it strikes
/// is not for this function to say.
pub fn add_comment(payload: CommentInput) -> (res: Result<NewComment, ApiError>)
    ensures
        match res {
            Ok(row) => {
                &&& row@ == staged(payload@, row.user_uuid@, row.created_at@, row.password_hash@)
                &&& is_uuid_text(row.user_uuid@)
                &&& row.password_hash@.len() == 60
                &&& names_cost(row.password_hash@, HASH_COST)
                &&& password_matches(payload.password@, row.password_hash@)
            },
            Err(e) => e == ApiError::Hash,
        },
{
    let user_uuid = fresh_uuid();
    let created_at = utc_now();
    match hash_password(payload.password.as_str()) {
        Ok(password_hash) => Ok(stage_comment(payload, user_uuid, created_at, password_hash)),
        Err(e) => Err(e),
    }
}

/// Ends an add request with the store's answer to the insert: the id it
/// assigned, or `None` where the write failed.
pub fn publish_comment(row: NewComment, inserted: Option<i64>) -> (res: Result<Comment, ApiError>)
    ensures
        match res {
            Ok(comment) => inserted matches Some(id) && comment@ == published(row@, id),
            Err(e) => inserted is None && e == ApiError::Storage,
        },
{
    match inserted {
        Some(id) => Ok(
            Comment {
                id,
                post: row.post,
                parent: row.parent,
                content: row.content,
                writer: row.writer,
                password: String::new(),
                user_uuid: row.user_uuid,
                ip: row.ip,
                created_at: row.created_at,
                deleted: row.deleted,
            },
        ),
        None => Err(ApiError::Storage),
    }
}

/// Answers a list request with the store's answer to the query: the rows of
/// the thread, oldest first, or `None` where the read failed. A thread
/// without rows is an empty tree, not a failure.
pub fn get_comments(listed: Option<Vec<Comment>>) -> (res: Result<Vec<CommentOutput>, ApiError>)
    ensures
        match res {
            Ok(tree) => listed matches Some(rows) && tree.deep_view() == thread_of(rows.deep_view()),
            Err(e) => listed is None && e == ApiError::Storage,
        },
{
    match listed {
        Some(rows) => Ok(assemble_tree(rows)),
        None => Err(ApiError::Storage),
    }
}

/// What a delete request does once the stored hash has been looked up.
#[derive(Debug, Clone, Copy, PartialEq, Eq, Structural)]
pub enum DeleteStep {
    /// Ask the store to flag the comment with this id as deleted.
    MarkDeleted(i64),
    /// Answer with this failure and leave the store alone.
    Refuse(ApiError),
}

/// The step that follows a password check: the write for a match, the
/// refusal for a mismatch, and the failure itself where the check failed.
pub open spec fn step_after_check(id: i64, check: Result<bool, ApiError>) -> DeleteStep {
    match check {
        Ok(true) => DeleteStep::MarkDeleted(id),
        Ok(false) => DeleteStep::Refuse(ApiError::Unauthorized),
        Err(e) => DeleteStep::Refuse(e),
    }
}

/// The step of a delete request for comment `id` whose stored hash is
/// `stored` (`None`: no such comment), made with `password`.
pub open spec fn delete_step(id: i64, stored: Option<Seq<char>>, password: Seq<char>) -> DeleteStep {
    match stored {
        None => DeleteStep::Refuse(ApiError::NotFound),
        Some(hash) => match bcrypt_verdict(password, hash) {
            Some(true) => DeleteStep::MarkDeleted(id),
            Some(false) => DeleteStep::Refuse(ApiError::Unauthorized),
            None => DeleteStep::Refuse(ApiError::Hash),
        },
    }
}

/// Decides on a delete request from the outcome of the password check.
pub fn decide_delete(id: i64, check: Result<bool, ApiError>) -> (step: DeleteStep)
    ensures
        step == step_after_check(id, check),
{
    match check {
        Ok(true) => DeleteStep::MarkDeleted(id),
        Ok(false) => DeleteStep::Refuse(ApiError::Unauthorized),
        Err(e) => DeleteStep::Refuse(e),
    }
}

/// Continues a delete request with the store's answer to the lookup: the
/// hash stored for `id`, or `None` where no comment has that id.
///
/// An unknown id is refused as not found before any password is looked at.
/// Otherwise the password decides, and nothing else does: not the comment's
/// thread, not whether it is deleted already.
pub fn delete_comment(id: i64, stored_hash: Option<String>, payload: DeleteCommentInput) -> (step: DeleteStep)
    ensures
        step == delete_step(
            id,
            match stored_hash {
                Some(hash) => Some(hash@),
                None => None,
            },
            payload.password@,
        ),
{
    match stored_hash {
        None => DeleteStep::Refuse(ApiError::NotFound),
        Some(hash) => {
            let check = check_password(payload.password.as_str(), hash.as_str());
            decide_delete(id, check)
        },
    }
}

/// A comment can be deleted with the password it was added with: whatever
/// hash the add request stored for `password`, a delete request with the same
/// password is answered with the write.
pub proof fn lemma_added_comment_can_be_deleted(payload: CommentInputView, row: NewCommentView, id: i64)
    requires
        password_matches(payload.password, row.password_hash),
    ensures
        delete_step(id, Some(row.password_hash), payload.password) == DeleteStep::MarkDeleted(id),
        published(row, id).password == Seq::<char>::empty(),
{
}

/// The password alone decides over an existing comment: the write is asked
/// for exactly when the password matches the stored hash, every time it is
/// asked again, and a mismatch is refused as unauthorized with no write.
pub proof fn lemma_password_decides_delete(id: i64, hash: Seq<char>, password: Seq<char>)
    ensures
        password_matches(password, hash) <==> delete_step(id, Some(hash), password) == DeleteStep::MarkDeleted(
            id,
        ),
        bcrypt_verdict(password, hash) == Some(false) <==> delete_step(id, Some(hash), password)
            == DeleteStep::Refuse(ApiError::Unauthorized),
        delete_step(id, Some(hash), password) != DeleteStep::Refuse(ApiError::NotFound),
{
}

/// An id that no comment has is refused as not found, whatever the password,
/// and never as unauthorized.
pub proof fn lemma_unknown_id_is_not_found(id: i64, password: Seq<char>)
    ensures
        delete_step(id, None, password) == DeleteStep::Refuse(ApiError::NotFound),
        delete_step(id, None, password) != DeleteStep::Refuse(ApiError::Unauthorized),
{
}

/// Checking the password and deciding on its outcome is the whole of the
/// step for an existing comment.
pub proof fn lemma_delete_step_by_check(id: i64, hash: Seq<char>, password: Seq<char>)
    ensures
        delete_step(id, Some(hash), password) == step_after_check(id, checked(bcrypt_verdict(password, hash))),
{
}

/// The acknowledgement of a delete.
#[derive(Debug)]
pub struct DeleteAck {
    pub status: String,
}

/// Ends a delete request with the store's answer to the write.
pub fn acknowledge_delete(written: bool) -> (res: Result<DeleteAck, ApiError>)
    ensures
        match res {
            Ok(ack) => written && ack.status@ == "deleted"@,
            Err(e) => !written && e == ApiError::Storage,
        },
{
    if written {
        Ok(DeleteAck { status: "deleted".to_string() })
    } else {
        Err(ApiError::Storage)
    }
}

} // verus!

//! The records that travel between a client, the handlers and the row store,
//! each with the mathematical value that contracts speak of.

use vstd::prelude::*;

verus! {

/// What a client sends to add a comment.
#[derive(Debug)]
pub struct CommentInput {
    pub post: String,
    pub parent: Option<i64>,
    pub content: String,
    pub writer: String,
    pub password: String,
}

/// One persisted comment row.
#[derive(Debug)]
pub struct Comment {
    pub id: i64,
    pub post: String,
    pub parent: Option<i64>,
    pub content: String,
    pub writer: String,
    pub password: String,
    pub user_uuid: String,
    pub ip: Option<String>,
    pub created_at: String,
    pub deleted: bool,
}

/// A root comment of a thread together with its direct replies.
#[derive(Debug)]
pub struct CommentOutput {
    pub id: i64,
    pub content: String,
    pub writer: String,
    pub user_uuid: String,
    pub created_at: String,
    pub deleted: bool,
    pub children: Vec<CommentChild>,
}

/// A reply as it is listed under its root: no thread, no parent, no secret.
#[derive(Debug)]
pub struct CommentChild {
    pub id: i64,
    pub content: String,
    pub writer: String,
    pub user_uuid: String,
    pub created_at: String,
    pub deleted: bool,
}

/// What a client sends to delete a comment.
#[derive(Debug)]
pub struct DeleteCommentInput {
    pub password: String,
}

/// Mathematical value of a [`CommentInput`].
pub struct CommentInputView {
    pub post: Seq<char>,
    pub parent: Option<i64>,
    pub content: Seq<char>,
    pub writer: Seq<char>,
    pub password: Seq<char>,
}

/// Mathematical value of a [`Comment`].
pub struct CommentView {
    pub id: i64,
    pub post: Seq<char>,
    pub parent: Option<i64>,
    pub content: Seq<char>,
    pub writer: Seq<char>,
    pub password: Seq<char>,
    pub user_uuid: Seq<char>,
    pub ip: Option<Seq<char>>,
    pub created_at: Seq<char>,
    pub deleted: bool,
}

/// Mathematical value of a [`CommentChild`].
pub struct CommentChildView {
    pub id: i64,
    pub content: Seq<char>,
    pub writer: Seq<char>,
    pub user_uuid: Seq<char>,
    pub created_at: Seq<char>,
    pub deleted: bool,
}

/// Mathematical value of a [`CommentOutput`].
pub struct CommentOutputView {
    pub id: i64,
    pub content: Seq<char>,
    pub writer: Seq<char>,
    pub user_uuid: Seq<char>,
    pub created_at: Seq<char>,
    pub deleted: bool,
    pub children: Seq<CommentChildView>,
}

impl View for CommentInput {
    type V = CommentInputView;

    open spec fn view(&self) -> CommentInputView {
        CommentInputView {
            post: self.post@,
            parent: self.parent,
            content: self.content@,
            writer: self.writer@,
            password: self.password@,
        }
    }
}

impl View for Comment {
    type V = CommentView;

    open spec fn view(&self) -> CommentView {
        CommentView {
            id: self.id,
            post: self.post@,
            parent: self.parent,
            content: self.content@,
            writer: self.writer@,
            password: self.password@,
            user_uuid: self.user_uuid@,
            ip: match self.ip {
                Some(ip) => Some(ip@),
                None => None,
            },
            created_at: self.created_at@,
            deleted: self.deleted,
        }
    }
}

impl DeepView for Comment {
    type V = CommentView;

    open spec fn deep_view(&self) -> CommentView {
        self@
    }
}

impl View for CommentChild {
    type V = CommentChildView;

    open spec fn view(&self) -> CommentChildView {
        CommentChildView {
            id: self.id,
            content: self.content@,
            writer: self.writer@,
            user_uuid: self.user_uuid@,
            created_at: self.created_at@,
            deleted: self.deleted,
        }
    }
}

impl DeepView for CommentChild {
    type V = CommentChildView;

    open spec fn deep_view(&self) -> CommentChildView {
        self@
    }
}

impl View for CommentOutput {
    type V = CommentOutputView;

    open spec fn view(&self) -> CommentOutputView {
        CommentOutputView {
            id: self.id,
            content: self.content@,
            writer: self.writer@,
            user_uuid: self.user_uuid@,
            created_at: self.created_at@,
            deleted: self.deleted,
            children: self.children.deep_view(),
        }
    }
}

impl DeepView for CommentOutput {
    type V = CommentOutputView;

    open spec fn deep_view(&self) -> CommentOutputView {
        self@
    }
}

impl Comment {
    /// A row as the listing of the thread `post` gives it: the listing reads
    /// neither password nor address, so the one is blank and the other absent.
    pub fn listed(
        post: String,
        id: i64,
        parent: Option<i64>,
        content: String,
        writer: String,
        user_uuid: String,
        created_at: String,
        deleted: bool,
    ) -> (row: Comment)
        ensures
            row@ == (CommentView {
                id,
                post: post@,
                parent,
                content: content@,
                writer: writer@,
                password: Seq::empty(),
                user_uuid: user_uuid@,
                ip: None,
                created_at: created_at@,
                deleted,
            }),
    {
        Comment {
            id,
            post,
            parent,
            content,
            writer,
            password: String::new(),
            user_uuid,
            ip: None,
            created_at,
            deleted,
        }
    }
}

impl Clone for CommentChild {
    fn clone(&self) -> (copy: Self)
        ensures
            copy == *self,
    {
        CommentChild {
            id: self.id,
            content: self.content.clone(),
            writer: self.writer.clone(),
            user_uuid: self.user_uuid.clone(),
            created_at: self.created_at.clone(),
            deleted: self.deleted,
        }
    }
}

} // verus!

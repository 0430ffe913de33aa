//! What a request does to a session: the landing page, signing in,
//! registering a password, and the passkey registration ceremony.

use crate::controllers::auth::{Session, SessionView};
use crate::errors::Errors;
use crate::models::store::{Progress, ProgressView, ReplyView, Statement, StatementView, StoreReply};
use crate::models::users::{listed_users, users_from_rows, users_view, User, UserView};
use vstd::prelude::*;

pub mod auth;

verus! {

/// What the landing page shows.
#[derive(Clone, Debug, PartialEq, Eq)]
pub enum Page {
    /// The sign-in form, for a session on which nobody is signed in.
    Login,
    /// The homepage of the signed-in user, with every user listed.
    Homepage { name: String, all_users: Vec<User> },
}

/// The mathematical content of a [`Page`].
pub enum PageView {
    Login,
    Homepage { name: Seq<char>, all_users: Seq<UserView> },
}

impl View for Page {
    type V = PageView;

    open spec fn view(&self) -> PageView {
        match *self {
            Page::Login => PageView::Login,
            Page::Homepage { name, all_users } => PageView::Homepage {
                name: name@,
                all_users: users_view(all_users@),
            },
        }
    }
}

/// The homepage of a user, waiting for the listing of all users.
#[derive(Debug, PartialEq, Eq)]
pub struct Home {
    pub name: String,
}

/// The mathematical content of a [`Home`].
pub struct HomeView {
    pub name: Seq<char>,
}

impl View for Home {
    type V = HomeView;

    open spec fn view(&self) -> HomeView {
        HomeView { name: self.name@ }
    }
}

/// The start of the homepage of a user: list all users.
pub open spec fn home_start(name: Seq<char>) -> ProgressView<HomeView, PageView> {
    ProgressView::Next(HomeView { name }, StatementView::SelectUsers)
}

/// The landing page of a session: the sign-in form where nobody is signed
/// in, else the homepage of the signed-in user.
pub open spec fn index_start(session: SessionView) -> ProgressView<HomeView, PageView> {
    match session.auth {
        Some(auth) => home_start(auth.username),
        None => ProgressView::Done(Ok(PageView::Login)),
    }
}

/// The homepage once the listing is read, or the failure of the listing.
pub open spec fn home_step(state: HomeView, reply: ReplyView) -> ProgressView<HomeView, PageView> {
    match listed_users(reply) {
        Ok(all_users) => ProgressView::Done(Ok(PageView::Homepage { name: state.name, all_users })),
        Err(e) => ProgressView::Done(Err(e)),
    }
}

/// Starts the landing page of a session.
pub fn get_index(session: &Session) -> (r: Progress<Home, Page>)
    ensures
        r@ == index_start(session@),
{
    match &session.auth {
        Some(auth) => homepage(auth.username.clone()),
        None => Progress::Done(Ok(Page::Login)),
    }
}

/// Starts the homepage of a user.
pub fn homepage(name: String) -> (r: Progress<Home, Page>)
    ensures
        r@ == home_start(name@),
{
    Progress::Next(Home { name }, Statement::SelectUsers)
}

impl Home {
    /// Completes the homepage with the store's reply to the listing.
    pub fn resume(self, reply: StoreReply) -> (r: Progress<Home, Page>)
        ensures
            r@ == home_step(self@, reply@),
    {
        match reply {
            StoreReply::Rows(rows) => match users_from_rows(&rows) {
                Ok(all_users) => Progress::Done(Ok(Page::Homepage { name: self.name, all_users })),
                Err(e) => Progress::Done(Err(e)),
            },
            _ => Progress::Done(Err(Errors::StorageError)),
        }
    }
}

} // verus!

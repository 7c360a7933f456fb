//! The two operations that a routing layer binds to paths: adding a task
//! from a decoded form, and listing all tasks as a page. Each takes plain
//! values and answers with a status, an optional redirect target and a body.

use crate::render::{block, blocks, lemma_blocks_push, render, rendered};
use crate::store::{StoreState, TaskStore};
use crate::task::TaskView;
use crate::template::{template_prefix, template_suffix};
use vstd::prelude::*;
use vstd::string::*;

verus! {

/// Status of a page that was served.
pub const STATUS_OK: u16 = 200;

/// Status of a redirect.
pub const STATUS_FOUND: u16 = 302;

/// Status of a request that the store could not serve.
pub const STATUS_INTERNAL_SERVER_ERROR: u16 = 500;

/// The path of the list view, where a successful add sends the client.
pub const LIST_PATH: &'static str = "/test";

/// The decoded fields of the add form.
#[derive(Debug)]
pub struct InputData {
    pub title_field: String,
    pub input_field: String,
}

/// A finished response: status, redirect target if any, and body.
#[derive(Debug)]
pub struct Response {
    pub status: u16,
    pub location: Option<String>,
    pub body: String,
}

/// What a response is to the contracts.
pub struct ResponseView {
    pub status: u16,
    pub location: Option<Seq<char>>,
    pub body: Seq<char>,
}

impl View for Response {
    type V = ResponseView;

    open spec fn view(&self) -> ResponseView {
        ResponseView {
            status: self.status,
            location: match self.location {
                Some(path) => Some(path@),
                None => None,
            },
            body: self.body@,
        }
    }
}

impl ResponseView {
    /// A served page with the body given.
    pub open spec fn page(body: Seq<char>) -> ResponseView {
        ResponseView { status: STATUS_OK, location: None, body }
    }

    /// A redirect to the list view, without a body.
    pub open spec fn see_list() -> ResponseView {
        ResponseView { status: STATUS_FOUND, location: Some(LIST_PATH@), body: Seq::empty() }
    }

    /// A server error without a body: nothing of what went wrong is shown.
    pub open spec fn unavailable() -> ResponseView {
        ResponseView {
            status: STATUS_INTERNAL_SERVER_ERROR,
            location: None,
            body: Seq::empty(),
        }
    }
}

/// The text of a template that may be missing: a template that could not be
/// read counts as empty.
pub open spec fn template_text(template: Option<&str>) -> Seq<char> {
    match template {
        Some(text) => text@,
        None => Seq::empty(),
    }
}

/// The answer to a list request: the rendered page, or a server error if the
/// store is poisoned.
pub open spec fn list_response(store: StoreState, template: Seq<char>) -> ResponseView {
    match store.snapshot() {
        Ok(tasks) => ResponseView::page(rendered(template, tasks)),
        Err(_) => ResponseView::unavailable(),
    }
}

/// The answer to an add request: a redirect to the list view, or a server
/// error if the store is poisoned.
pub open spec fn add_response(store: StoreState) -> ResponseView {
    match store.access() {
        Ok(_) => ResponseView::see_list(),
        Err(_) => ResponseView::unavailable(),
    }
}

impl Response {
    /// A served page with the body given.
    pub fn page(body: String) -> (response: Response)
        ensures
            response@ == ResponseView::page(body@),
    {
        Response { status: STATUS_OK, location: None, body }
    }

    /// A redirect to the list view.
    pub fn see_list() -> (response: Response)
        ensures
            response@ == ResponseView::see_list(),
    {
        Response {
            status: STATUS_FOUND,
            location: Some(String::from_str(LIST_PATH)),
            body: String::new(),
        }
    }

    /// A server error without a body.
    pub fn unavailable() -> (response: Response)
        ensures
            response@ == ResponseView::unavailable(),
    {
        Response { status: STATUS_INTERNAL_SERVER_ERROR, location: None, body: String::new() }
    }
}

/// Serves the list view: a snapshot of the store, rendered into the
/// template. A template that could not be read is taken as empty, so that
/// the page is then the task blocks alone. A poisoned store gives a server
/// error.
pub fn list(store: &TaskStore, template: Option<&str>) -> (response: Response)
    ensures
        response@ == list_response(store@, template_text(template)),
{
    match store.snapshot() {
        Ok(tasks) => {
            let text = match template {
                Some(text) => text,
                None => "",
            };
            proof {
                reveal_strlit("");
                assert(text@ =~= template_text(template));
            }
            Response::page(render(text, tasks.as_slice()))
        },
        Err(_) => Response::unavailable(),
    }
}

/// Serves an add request: appends a task with the form's title and content,
/// stamped with the current local time, and sends the client to the list
/// view. On a poisoned store nothing is appended and the answer is a server
/// error.
pub fn add(input: InputData, store: &mut TaskStore) -> (response: Response)
    ensures
        response@ == add_response(old(store)@),
        final(store)@ == old(store)@.append(
            TaskView {
                title: input.title_field@,
                content: input.input_field@,
                creation: final(store)@.tasks.last().creation,
            },
        ),
        !old(store)@.poisoned ==> final(store)@.tasks.last().creation.is_valid(),
{
    match store.append(input.title_field, input.input_field) {
        Ok(_) => Response::see_list(),
        Err(_) => Response::unavailable(),
    }
}

/// A task that was added to a usable store shows on the next list page as
/// the last block: behind the blocks of the tasks that were there, and before
/// the template's suffix.
pub proof fn lemma_added_task_is_listed_last(
    store: StoreState,
    task: TaskView,
    template: Seq<char>,
)
    requires
        !store.poisoned,
    ensures
        list_response(store.append(task), template) == ResponseView::page(
            template_prefix(template) + blocks(store.tasks) + block(task) + template_suffix(
                template,
            ),
        ),
{
    lemma_blocks_push(store.tasks, task);
    assert(template_prefix(template) + (blocks(store.tasks) + block(task)) =~= template_prefix(
        template,
    ) + blocks(store.tasks) + block(task));
}

/// On a poisoned store both operations answer with the same bare server
/// error, whatever the form and the template hold.
pub proof fn lemma_poisoned_store_is_unavailable(store: StoreState, template: Seq<char>)
    requires
        store.poisoned,
    ensures
        list_response(store, template) == ResponseView::unavailable(),
        add_response(store) == ResponseView::unavailable(),
{
}

} // verus!

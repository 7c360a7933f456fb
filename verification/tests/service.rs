use tasklog::render::render;
use tasklog::service;
use tasklog::service::{InputData, Response};
use tasklog::store::TaskStore;
use tasklog::time::Time;

fn form(title: &str, content: &str) -> InputData {
    InputData { title_field: String::from(title), input_field: String::from(content) }
}

#[test]
fn add_redirects_to_the_list_view() {
    let mut store = TaskStore::new();
    let response = service::add(form("title", "content"), &mut store);
    assert_eq!(response.status, 302);
    assert_eq!(response.location.as_deref(), Some("/test"));
    assert_eq!(response.body, "");
    let tasks = store.snapshot().unwrap();
    assert_eq!(tasks.len(), 1);
    assert_eq!(tasks[0].title, "title");
    assert_eq!(tasks[0].content, "content");
}

#[test]
fn add_on_a_poisoned_store_is_a_server_error() {
    let mut store = TaskStore::new();
    store.poison();
    let response = service::add(form("title", "content"), &mut store);
    assert_eq!(response.status, 500);
    assert_eq!(response.location, None);
    assert_eq!(response.body, "");
    assert_eq!(store.len(), 0);
}

#[test]
fn list_serves_the_rendered_page() {
    let mut store = TaskStore::new();
    let t = Time { seconds: 3, minutes: 2, hours: 1, days: 4, months: 5, years: 2024 };
    store.append_at(String::from("T"), String::from("C"), t).unwrap();
    store.append_at(String::from("U"), String::from("D"), t).unwrap();
    let response = service::list(&store, Some("<ul>@@@</ul>"));
    assert_eq!(response.status, 200);
    assert_eq!(response.location, None);
    assert_eq!(response.body, render("<ul>@@@</ul>", &store.snapshot().unwrap()));
    assert!(response.body.starts_with("<ul><li style="));
    assert!(response.body.ends_with("</li></ul>"));
    assert!(response.body.contains("Created at 01:02:03 on 04/05/2024."));
    assert!(response.body.find("<h2>T</h2>").unwrap() < response.body.find("<h2>U</h2>").unwrap());
}

#[test]
fn list_of_an_empty_store_is_the_bare_template() {
    let store = TaskStore::new();
    let response = service::list(&store, Some("A@@@B"));
    assert_eq!(response.status, 200);
    assert_eq!(response.body, "AB");
}

#[test]
fn list_without_a_template_serves_the_blocks_alone() {
    let mut store = TaskStore::new();
    let t = Time { seconds: 3, minutes: 2, hours: 1, days: 4, months: 5, years: 2024 };
    store.append_at(String::from("T"), String::from("C"), t).unwrap();
    let response = service::list(&store, None);
    assert_eq!(response.status, 200);
    assert_eq!(response.body, render("", &store.snapshot().unwrap()));
    assert!(response.body.starts_with("<li style="));
    assert!(response.body.ends_with("</li>"));
    let empty = service::list(&TaskStore::new(), None);
    assert_eq!(empty.status, 200);
    assert_eq!(empty.body, "");
}

#[test]
fn list_on_a_poisoned_store_is_a_server_error() {
    let mut store = TaskStore::new();
    service::add(form("title", "content"), &mut store);
    store.poison();
    let response = service::list(&store, Some("A@@@B"));
    assert_eq!(response.status, 500);
    assert_eq!(response.location, None);
    assert_eq!(response.body, "");
}

#[test]
fn added_tasks_show_up_in_the_list_in_order() {
    let mut store = TaskStore::new();
    for title in ["one", "two", "three"] {
        assert_eq!(service::add(form(title, "text"), &mut store).status, 302);
    }
    let body = service::list(&store, Some("@@@")).body;
    let one = body.find("<h2>one</h2>").unwrap();
    let two = body.find("<h2>two</h2>").unwrap();
    let three = body.find("<h2>three</h2>").unwrap();
    assert!(one < two && two < three);
}

#[test]
fn responses_carry_their_status() {
    let page = Response::page(String::from("body"));
    assert_eq!((page.status, page.location, page.body.as_str()), (200, None, "body"));
    let redirect = Response::see_list();
    assert_eq!(redirect.status, 302);
    assert_eq!(redirect.location.as_deref(), Some("/test"));
    assert_eq!(redirect.body, "");
    let error = Response::unavailable();
    assert_eq!((error.status, error.location, error.body.as_str()), (500, None, ""));
}

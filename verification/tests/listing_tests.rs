use image_gateway::listing::{
    list_command, list_page, ListCommand, ListStep, Listing, PageRead, PAGE_SIZE, UNKNOWN_KEY,
};
use image_gateway::model::{EnvVars, Image, ListResponse, Reply, Status};

const BASE: &str = "https://gallery.s3.eu-west-1.amazonaws.com";

fn env() -> EnvVars {
    EnvVars {
        region: String::from("eu-west-1"),
        bucket: String::from("gallery"),
        bucket_url: String::from("https://cdn.example.test"),
    }
}

fn keys(names: &[&str]) -> Vec<Option<String>> {
    names.iter().map(|name| Some(String::from(*name))).collect()
}

fn image(key: &str) -> Image {
    Image { object_key: String::from(key), public_url: format!("{}/{}", BASE, key) }
}

fn run(pages: Vec<PageRead>) -> Reply<ListResponse> {
    let mut listing = Listing::begin(&env());
    for page in pages {
        match listing.next_page(page) {
            ListStep::Fetch(next) => listing = next,
            ListStep::Respond(reply) => return reply,
        }
    }
    panic!("the listing asked for a page beyond the last");
}

#[test]
fn list_command_names_bucket_prefix_and_page_size() {
    assert_eq!(
        list_command(&env()),
        ListCommand { bucket: String::from("gallery"), prefix: String::from("images"), max_keys: 10 }
    );
    assert_eq!(PAGE_SIZE, 10);
}

#[test]
fn list_page_leaves_the_marker_out() {
    let images = list_page(BASE, &keys(&["images/", "images/a.jpg"]));
    assert_eq!(images, vec![image("images/a.jpg")]);
}

#[test]
fn list_page_keeps_the_order_of_the_store() {
    let images = list_page(BASE, &keys(&["images/z.png", "images/a.png", "images/m.png"]));
    assert_eq!(images, vec![image("images/z.png"), image("images/a.png"), image("images/m.png")]);
}

#[test]
fn list_page_names_an_entry_without_key() {
    let images = list_page(BASE, &vec![None, Some(String::from("images/a.jpg")), None]);
    assert_eq!(images, vec![image("Unknown"), image("images/a.jpg"), image("Unknown")]);
    assert_eq!(UNKNOWN_KEY, "Unknown");
}

#[test]
fn list_page_leaves_out_every_marker() {
    let images = list_page(BASE, &keys(&["images/", "images/", "images/b", "images/"]));
    assert_eq!(images, vec![image("images/b")]);
}

#[test]
fn list_page_keeps_keys_that_only_resemble_the_marker() {
    let images = list_page(BASE, &keys(&["images", "images//", "Images/", "images/ ", ""]));
    assert_eq!(
        images,
        vec![image("images"), image("images//"), image("Images/"), image("images/ "), image("")]
    );
}

#[test]
fn list_page_keeps_duplicates() {
    let images = list_page(BASE, &keys(&["images/a", "images/a"]));
    assert_eq!(images, vec![image("images/a"), image("images/a")]);
}

#[test]
fn list_page_of_nothing() {
    assert_eq!(list_page(BASE, &Vec::new()), Vec::<Image>::new());
}

#[test]
fn listing_of_marker_and_one_object() {
    let reply = run(vec![PageRead::Page(keys(&["images/", "images/a.jpg"])), PageRead::End]);
    assert_eq!(
        reply,
        Reply {
            status: Status::Success,
            body: ListResponse { data: vec![image("images/a.jpg")], error: None },
        }
    );
}

#[test]
fn listing_without_pages_is_empty_and_succeeds() {
    let reply = run(vec![PageRead::End]);
    assert_eq!(reply, Reply { status: Status::Success, body: ListResponse { data: vec![], error: None } });
}

#[test]
fn listing_flattens_pages_in_order() {
    let reply = run(vec![
        PageRead::Page(keys(&["images/", "images/a", "images/b"])),
        PageRead::Page(Vec::new()),
        PageRead::Page(keys(&["images/c"])),
        PageRead::Page(keys(&["images/d", "images/e"])),
        PageRead::End,
    ]);
    assert_eq!(reply.status, Status::Success);
    assert_eq!(reply.body.error, None);
    assert_eq!(
        reply.body.data,
        vec![image("images/a"), image("images/b"), image("images/c"), image("images/d"), image("images/e")]
    );
}

#[test]
fn listing_equals_the_page_of_all_entries() {
    let first = keys(&["images/", "images/1"]);
    let second = keys(&["images/2", "images/"]);
    let mut all = first.clone();
    all.extend(second.clone());
    let reply = run(vec![PageRead::Page(first), PageRead::Page(second), PageRead::End]);
    assert_eq!(reply.body.data, list_page(BASE, &all));
}

#[test]
fn listing_asks_for_the_next_page_after_a_page() {
    let listing = Listing::begin(&env());
    assert!(matches!(listing.next_page(PageRead::Page(keys(&["images/a"]))), ListStep::Fetch(_)));
}

#[test]
fn listing_that_fails_drops_what_was_collected() {
    let reply = run(vec![
        PageRead::Page(keys(&["images/a", "images/b"])),
        PageRead::Failed(String::from("dispatch failure")),
    ]);
    assert_eq!(
        reply,
        Reply {
            status: Status::InternalServerError,
            body: ListResponse {
                data: vec![],
                error: Some(String::from("An error occured during image upload: dispatch failure")),
            },
        }
    );
}

#[test]
fn listing_that_fails_at_once() {
    let reply = run(vec![PageRead::Failed(String::from("access denied"))]);
    assert_eq!(reply.status.code(), 500);
    assert!(reply.body.data.is_empty());
    assert_eq!(
        reply.body.error,
        Some(String::from("An error occured during image upload: access denied"))
    );
}

#[test]
fn listing_never_shows_the_marker() {
    let reply = run(vec![
        PageRead::Page(keys(&["images/"])),
        PageRead::Page(keys(&["images/", "images/x", "images/"])),
        PageRead::End,
    ]);
    assert!(reply.body.data.iter().all(|image| image.object_key != "images/"));
    assert_eq!(reply.body.data.len(), 1);
}

#[test]
fn list_page_takes_more_entries_than_the_page_size() {
    let names: Vec<String> = (0..25).map(|n| format!("images/{:02}.png", n)).collect();
    let entries: Vec<Option<String>> = names.iter().cloned().map(Some).collect();
    let images = list_page(BASE, &entries);
    assert_eq!(images.len(), 25);
    for (shown, name) in images.iter().zip(names.iter()) {
        assert_eq!(shown, &image(name));
    }
}

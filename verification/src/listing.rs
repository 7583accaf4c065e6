//! The list handler: drives the store's paginated listing and flattens the
//! pages into one ordered sequence of images, leaving the prefix marker out.

use crate::key::{lemma_key_under_prefix, object_key, prefix_marker, sanitized, OBJECT_KEY_PREFIX, TIMESTAMP_LAYOUT};
use crate::foreign::utc_text;
use crate::model::{EnvVars, Image, ImageView, ListResponse, ListResponseView, Reply, Status};
use crate::service::{error_text, get_aws_public_url, image_for, image_of, public_base, UPLOAD_FAILED};
use vstd::prelude::*;

verus! {

/// How many keys a page is asked to hold; the store may return more.
pub const PAGE_SIZE: i32 = 10;

/// The key that stands for a store entry without one.
pub const UNKNOWN_KEY: &'static str = "Unknown";

/// What to ask of the store for a listing.
#[derive(Clone, Debug, PartialEq, Eq)]
pub struct ListCommand {
    pub bucket: String,
    pub prefix: String,
    pub max_keys: i32,
}

/// What reading the next page of the listing gave: the keys of its entries
/// in the store's order, the end of the listing, or the store's error.
#[derive(Clone, Debug, PartialEq, Eq)]
pub enum PageRead {
    Page(Vec<Option<String>>),
    End,
    Failed(String),
}

/// The key of a raw store entry.
pub open spec fn entry_key(entry: Option<Seq<char>>) -> Seq<char> {
    match entry {
        Some(key) => key,
        None => UNKNOWN_KEY@,
    }
}

/// Whether an entry with this key is shown: every key but the bare marker of
/// the prefix.
pub open spec fn is_shown(key: Seq<char>) -> bool {
    key != prefix_marker(OBJECT_KEY_PREFIX@)
}

/// The images of a run of raw entries: the entries' keys in their order,
/// without the bare marker, each as the record of its object.
pub open spec fn listed(base: Seq<char>, entries: Seq<Option<Seq<char>>>) -> Seq<ImageView> {
    entries.map_values(|entry: Option<Seq<char>>| entry_key(entry)).filter(
        |key: Seq<char>| is_shown(key),
    ).map_values(|key: Seq<char>| image_of(base, key))
}

/// One more entry adds its image at the end, or nothing where it is the
/// marker.
pub proof fn lemma_listed_push(
    base: Seq<char>,
    entries: Seq<Option<Seq<char>>>,
    entry: Option<Seq<char>>,
)
    ensures
        listed(base, entries.push(entry)) == if is_shown(entry_key(entry)) {
            listed(base, entries).push(image_of(base, entry_key(entry)))
        } else {
            listed(base, entries)
        },
{
    reveal(Seq::filter);
    let keys = entries.map_values(|entry: Option<Seq<char>>| entry_key(entry));
    let more = entries.push(entry).map_values(|entry: Option<Seq<char>>| entry_key(entry));
    assert(more.drop_last() =~= keys);
}

/// Listing flattens: the images of two runs of entries, one after the other,
/// are the images of the first followed by those of the second.
pub proof fn lemma_listed_concat(
    base: Seq<char>,
    first: Seq<Option<Seq<char>>>,
    second: Seq<Option<Seq<char>>>,
)
    ensures
        listed(base, first + second) == listed(base, first) + listed(base, second),
    decreases second.len(),
{
    if second.len() > 0 {
        let init = second.drop_last();
        let entry = second.last();
        assert(second =~= init.push(entry));
        lemma_listed_concat(base, first, init);
        lemma_listed_push(base, first + init, entry);
        lemma_listed_push(base, init, entry);
    }
}

/// Every listed image is the record of its own key, and none has the bare
/// marker as its key.
pub proof fn lemma_listed_shown(base: Seq<char>, entries: Seq<Option<Seq<char>>>)
    ensures
        forall|i: int|
            0 <= i < listed(base, entries).len() ==> {
                let image = #[trigger] listed(base, entries)[i];
                image == image_of(base, image.object_key) && is_shown(image.object_key)
            },
{
    let keys = entries.map_values(|entry: Option<Seq<char>>| entry_key(entry));
    let shown = |key: Seq<char>| is_shown(key);
    assert forall|i: int| 0 <= i < listed(base, entries).len() implies {
        let image = #[trigger] listed(base, entries)[i];
        image == image_of(base, image.object_key) && is_shown(image.object_key)
    } by {
        keys.lemma_filter_pred(shown, i);
    }
}

/// A shown key that the store lists comes out as the record of its object.
pub proof fn lemma_listed_contains(
    base: Seq<char>,
    entries: Seq<Option<Seq<char>>>,
    at: int,
)
    requires
        0 <= at < entries.len(),
        is_shown(entry_key(entries[at])),
    ensures
        listed(base, entries).contains(image_of(base, entry_key(entries[at]))),
{
    let keys = entries.map_values(|entry: Option<Seq<char>>| entry_key(entry));
    let shown = |key: Seq<char>| is_shown(key);
    keys.lemma_filter_contains(shown, at);
    let survivors = keys.filter(shown);
    let j = choose|j: int| 0 <= j < survivors.len() && survivors[j] == keys[at];
    assert(listed(base, entries)[j] == image_of(base, keys[at]));
}

/// Round trip: where the store's listing holds the key of an uploaded file,
/// the images shown hold the record of that file, the one that the upload
/// answered with.
pub proof fn lemma_uploaded_is_listed(
    base: Seq<char>,
    category: Seq<char>,
    file_name: Seq<char>,
    secs: i64,
    entries: Seq<Option<Seq<char>>>,
    at: int,
)
    requires
        0 <= at < entries.len(),
        entries[at] == Some(object_key(OBJECT_KEY_PREFIX@, category, file_name, secs)),
    ensures
        listed(base, entries).contains(
            image_of(base, object_key(OBJECT_KEY_PREFIX@, category, file_name, secs)),
        ),
{
    lemma_key_under_prefix(
        OBJECT_KEY_PREFIX@,
        utc_text(secs, TIMESTAMP_LAYOUT@),
        category,
        sanitized(file_name),
    );
    lemma_listed_contains(base, entries, at);
}

/// The store call that opens a listing: the configured bucket, the service's
/// prefix, and the page size.
pub fn list_command(env_vars: &EnvVars) -> (command: ListCommand)
    ensures
        command.bucket@ == env_vars.bucket@,
        command.prefix@ == OBJECT_KEY_PREFIX@,
        command.max_keys == PAGE_SIZE,
{
    ListCommand {
        bucket: env_vars.bucket.clone(),
        prefix: String::from_str(OBJECT_KEY_PREFIX),
        max_keys: PAGE_SIZE,
    }
}

/// The images of one page of raw entries.
pub fn list_page(base: &str, entries: &Vec<Option<String>>) -> (images: Vec<Image>)
    ensures
        images.deep_view() == listed(base@, entries.deep_view()),
{
    proof {
        reveal_strlit("/");
    }
    let mut marker = String::from_str(OBJECT_KEY_PREFIX);
    marker.append("/");
    let ghost raw = entries.deep_view();
    let mut images: Vec<Image> = Vec::new();
    let mut i: usize = 0;
    while i < entries.len()
        invariant
            i <= entries.len(),
            raw == entries.deep_view(),
            marker@ == prefix_marker(OBJECT_KEY_PREFIX@),
            images.deep_view() == listed(base@, raw.take(i as int)),
        decreases entries.len() - i,
    {
        let key = match &entries[i] {
            Some(key) => key.clone(),
            None => String::from_str(UNKNOWN_KEY),
        };
        proof {
            assert(raw.take(i + 1) =~= raw.take(i as int).push(raw[i as int]));
            lemma_listed_push(base@, raw.take(i as int), raw[i as int]);
        }
        if key != marker {
            images.push(image_for(base, key));
        }
        i += 1;
    }
    assert(raw.take(i as int) =~= raw);
    images
}

/// What the list handler does next.
#[derive(Debug)]
pub enum ListStep {
    /// Read the next page, and come back with it.
    Fetch(Listing),
    /// Send this reply; the listing is over.
    Respond(Reply<ListResponse>),
}

/// A listing under way: the images of the pages read so far.
#[derive(Debug)]
pub struct Listing {
    base: String,
    images: Vec<Image>,
}

impl Listing {
    #[verifier::type_invariant]
    spec fn well_formed(self) -> bool {
        forall|i: int|
            0 <= i < self.images.len() ==> {
                let image = #[trigger] self.images.deep_view()[i];
                image == image_of(self.base@, image.object_key) && is_shown(image.object_key)
            }
    }

    /// The public base URL that the images are seen from.
    pub closed spec fn base(&self) -> Seq<char> {
        self.base@
    }

    /// The images collected so far, in the store's order.
    pub closed spec fn images(&self) -> Seq<ImageView> {
        self.images.deep_view()
    }

    /// Opens a listing: nothing read yet.
    pub fn begin(env_vars: &EnvVars) -> (listing: Listing)
        ensures
            listing.base() == public_base(env_vars.bucket@, env_vars.region@),
            listing.images() == Seq::<ImageView>::empty(),
    {
        Listing { base: get_aws_public_url(env_vars), images: Vec::new() }
    }

    /// Takes what reading the next page gave.
    ///
    /// A page adds its images behind those already collected and asks for
    /// the next one. The end of the listing answers with all of them, in
    /// order, under status 200. A failed read answers with the store's error
    /// under status 500 and drops what was collected.
    pub fn next_page(self, page: PageRead) -> (step: ListStep)
        ensures
            match page {
                PageRead::Page(entries) => {
                    &&& step matches ListStep::Fetch(next)
                    &&& next.base() == self.base()
                    &&& next.images() == self.images() + listed(self.base(), entries.deep_view())
                },
                PageRead::End => {
                    &&& step matches ListStep::Respond(reply)
                    &&& reply.status == Status::Success
                    &&& reply.body@ == (ListResponseView { data: self.images(), error: None })
                },
                PageRead::Failed(cause) => {
                    &&& step matches ListStep::Respond(reply)
                    &&& reply.status == Status::InternalServerError
                    &&& reply.body@ == (ListResponseView {
                        data: Seq::<ImageView>::empty(),
                        error: Some(UPLOAD_FAILED@ + cause@),
                    })
                },
            },
            step matches ListStep::Respond(reply) ==> forall|i: int|
                0 <= i < reply.body.data.len() ==> {
                    let image = #[trigger] reply.body@.data[i];
                    image == image_of(self.base(), image.object_key) && is_shown(image.object_key)
                },
    {
        proof {
            use_type_invariant(&self);
        }
        match page {
            PageRead::Page(entries) => {
                let Listing { base, mut images } = self;
                let ghost before = images.deep_view();
                let mut found = list_page(base.as_str(), &entries);
                let ghost added = found.deep_view();
                proof {
                    lemma_listed_shown(base@, entries.deep_view());
                }
                images.append(&mut found);
                assert(images.deep_view() =~= before + added);
                ListStep::Fetch(Listing { base, images })
            },
            PageRead::End => ListStep::Respond(
                Reply {
                    status: Status::Success,
                    body: ListResponse { data: self.images, error: None },
                },
            ),
            PageRead::Failed(cause) => {
                let data: Vec<Image> = Vec::new();
                assert(data.deep_view() =~= Seq::<ImageView>::empty());
                ListStep::Respond(
                    Reply {
                        status: Status::InternalServerError,
                        body: ListResponse {
                            data,
                            error: Some(error_text(UPLOAD_FAILED, cause.as_str())),
                        },
                    },
                )
            },
        }
    }
}

} // verus!

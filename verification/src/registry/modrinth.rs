//! The Modrinth registry: its wire schema and what it maps to.
//!
//! The wire types follow the JSON that the registry sends, key by key. Every
//! field without an `Option` must be there and of its kind, or the body is a
//! parse error.

use vstd::prelude::*;
use vstd::string::StringExecFns;
use super::{
    lookup_outcome, search_outcome, Mod, ModRegistry, ModRegistryError, ModVersion, ModView,
    Reply, ReplyView, Request, RequestView,
};
use crate::document::{
    deref_field, find, flag_of, json_document, lookup, optional_text_of, optional_whole_of,
    parse_json, read_flag, read_optional_text, read_optional_whole, read_text, read_texts,
    read_whole, text_of, texts_of, whole_of, Node,
};

verus! {

/// Where the registry is reached.
pub const BASE_URL: &'static str = "https://api.modrinth.com/v2";

/// A donation link of a project.
#[derive(Default, Debug, Clone, PartialEq)]
pub struct DonationUrl {
    pub id: String,
    pub platform: String,
    pub url: String,
}

/// What a [`DonationUrl`] holds.
pub struct DonationUrlView {
    pub id: Seq<char>,
    pub platform: Seq<char>,
    pub url: Seq<char>,
}

impl View for DonationUrl {
    type V = DonationUrlView;

    open spec fn view(&self) -> DonationUrlView {
        DonationUrlView {
            id: self.id@,
            platform: self.platform@,
            url: self.url@,
        }
    }
}

impl DonationUrl {
    /// The value that a node holds: a record in which every key named here
    /// has a value of the kind its field asks for. Other keys are ignored.
    pub open spec fn read(node: Node) -> Option<DonationUrlView> {
        match node {
            Node::Record(fields) => {
                let id = text_of(lookup(fields@, "id"@));
                let platform = text_of(lookup(fields@, "platform"@));
                let url = text_of(lookup(fields@, "url"@));
                if id is Some
                    && platform is Some
                    && url is Some
                {
                    Some(
                        DonationUrlView {
                            id: id->0,
                            platform: platform->0,
                            url: url->0,
                        },
                    )
                } else {
                    None
                }
            },
            _ => None,
        }
    }

    /// Whether every item holds a value.
    pub open spec fn all_read(items: Seq<Node>) -> bool {
        forall|i: int| 0 <= i < items.len() ==> DonationUrl::read(#[trigger] items[i]) is Some
    }

    /// The values that a field holds, which must be a list in which every
    /// item holds a value. They keep their order.
    pub open spec fn read_list(field: Option<Node>) -> Option<Seq<DonationUrlView>> {
        match field {
            Some(Node::List(items)) => if DonationUrl::all_read(items@) {
                Some(Seq::new(items@.len(), |i: int| DonationUrl::read(items@[i])->0))
            } else {
                None
            },
            _ => None,
        }
    }

    /// Reads a value out of a node.
    pub fn from_node(node: &Node) -> (value: Option<DonationUrl>)
        ensures
            value matches Some(v) ==> DonationUrl::read(*node) == Some(v@),
            value is None ==> DonationUrl::read(*node) is None,
    {
        match node {
            Node::Record(fields) => {
                let id = match read_text(find(fields, "id")) {
                    Some(value) => value,
                    None => {
                        return None;
                    },
                };
                let platform = match read_text(find(fields, "platform")) {
                    Some(value) => value,
                    None => {
                        return None;
                    },
                };
                let url = match read_text(find(fields, "url")) {
                    Some(value) => value,
                    None => {
                        return None;
                    },
                };
                Some(
                    DonationUrl {
                        id,
                        platform,
                        url,
                    },
                )
            },
            _ => None,
        }
    }

    /// Reads the values that a field holds, which must be a list in which
    /// every item holds a value.
    #[verifier::loop_isolation(false)]
    pub fn from_list(field: Option<&Node>) -> (values: Option<Vec<DonationUrl>>)
        ensures
            values matches Some(list) ==> DonationUrl::read_list(deref_field(field)) == Some(
                Seq::new(list@.len(), |i: int| list@[i]@),
            ),
            values is None ==> DonationUrl::read_list(deref_field(field)) is None,
    {
        match field {
            Some(Node::List(items)) => {
                let mut list: Vec<DonationUrl> = Vec::new();
                let mut i: usize = 0;
                while i < items.len()
                    invariant
                        i <= items.len(),
                        list.len() == i,
                        DonationUrl::all_read(items@.take(i as int)),
                        forall|j: int|
                            0 <= j < i ==> DonationUrl::read(items@[j]) == Some((#[trigger] list[j])@),
                    decreases items.len() - i,
                {
                    match DonationUrl::from_node(&items[i]) {
                        Some(value) => {
                            list.push(value);
                        },
                        None => {
                            proof {
                                assert(DonationUrl::read(items@[i as int]) is None);
                            }
                            return None;
                        },
                    }
                    i += 1;
                }
                proof {
                    assert(items@.take(i as int) =~= items@);
                    assert(Seq::new(list@.len(), |i: int| list@[i]@) =~= Seq::new(
                        items@.len(),
                        |i: int| DonationUrl::read(items@[i])->0,
                    ));
                }
                Some(list)
            },
            _ => None,
        }
    }
}

/// The license of a project.
#[derive(Default, Debug, Clone, PartialEq)]
pub struct License {
    pub id: String,
    pub name: String,
    pub url: String,
}

/// What a [`License`] holds.
pub struct LicenseView {
    pub id: Seq<char>,
    pub name: Seq<char>,
    pub url: Seq<char>,
}

impl View for License {
    type V = LicenseView;

    open spec fn view(&self) -> LicenseView {
        LicenseView {
            id: self.id@,
            name: self.name@,
            url: self.url@,
        }
    }
}

impl License {
    /// The value that a node holds: a record in which every key named here
    /// has a value of the kind its field asks for. Other keys are ignored.
    pub open spec fn read(node: Node) -> Option<LicenseView> {
        match node {
            Node::Record(fields) => {
                let id = text_of(lookup(fields@, "id"@));
                let name = text_of(lookup(fields@, "name"@));
                let url = text_of(lookup(fields@, "url"@));
                if id is Some
                    && name is Some
                    && url is Some
                {
                    Some(
                        LicenseView {
                            id: id->0,
                            name: name->0,
                            url: url->0,
                        },
                    )
                } else {
                    None
                }
            },
            _ => None,
        }
    }

    /// The value that a field holds, which must be there.
    pub open spec fn read_field(field: Option<Node>) -> Option<LicenseView> {
        match field {
            Some(node) => License::read(node),
            None => None,
        }
    }

    /// Reads a value out of a node.
    pub fn from_node(node: &Node) -> (value: Option<License>)
        ensures
            value matches Some(v) ==> License::read(*node) == Some(v@),
            value is None ==> License::read(*node) is None,
    {
        match node {
            Node::Record(fields) => {
                let id = match read_text(find(fields, "id")) {
                    Some(value) => value,
                    None => {
                        return None;
                    },
                };
                let name = match read_text(find(fields, "name")) {
                    Some(value) => value,
                    None => {
                        return None;
                    },
                };
                let url = match read_text(find(fields, "url")) {
                    Some(value) => value,
                    None => {
                        return None;
                    },
                };
                Some(
                    License {
                        id,
                        name,
                        url,
                    },
                )
            },
            _ => None,
        }
    }

    /// Reads the value that a field holds, which must be there.
    pub fn from_field(field: Option<&Node>) -> (value: Option<License>)
        ensures
            value matches Some(v) ==> License::read_field(deref_field(field)) == Some(v@),
            value is None ==> License::read_field(deref_field(field)) is None,
    {
        match field {
            Some(node) => License::from_node(node),
            None => None,
        }
    }
}

/// An image in the gallery of a project.
#[derive(Default, Debug, Clone, PartialEq)]
pub struct Gallery {
    pub url: String,
    pub featured: bool,
    pub title: String,
    pub description: String,
    pub created: String,
    pub ordering: i64,
}

/// What a [`Gallery`] holds.
pub struct GalleryView {
    pub url: Seq<char>,
    pub featured: bool,
    pub title: Seq<char>,
    pub description: Seq<char>,
    pub created: Seq<char>,
    pub ordering: i64,
}

impl View for Gallery {
    type V = GalleryView;

    open spec fn view(&self) -> GalleryView {
        GalleryView {
            url: self.url@,
            featured: self.featured,
            title: self.title@,
            description: self.description@,
            created: self.created@,
            ordering: self.ordering,
        }
    }
}

impl Gallery {
    /// The value that a node holds: a record in which every key named here
    /// has a value of the kind its field asks for. Other keys are ignored.
    pub open spec fn read(node: Node) -> Option<GalleryView> {
        match node {
            Node::Record(fields) => {
                let url = text_of(lookup(fields@, "url"@));
                let featured = flag_of(lookup(fields@, "featured"@));
                let title = text_of(lookup(fields@, "title"@));
                let description = text_of(lookup(fields@, "description"@));
                let created = text_of(lookup(fields@, "created"@));
                let ordering = whole_of(lookup(fields@, "ordering"@));
                if url is Some
                    && featured is Some
                    && title is Some
                    && description is Some
                    && created is Some
                    && ordering is Some
                {
                    Some(
                        GalleryView {
                            url: url->0,
                            featured: featured->0,
                            title: title->0,
                            description: description->0,
                            created: created->0,
                            ordering: ordering->0,
                        },
                    )
                } else {
                    None
                }
            },
            _ => None,
        }
    }

    /// Whether every item holds a value.
    pub open spec fn all_read(items: Seq<Node>) -> bool {
        forall|i: int| 0 <= i < items.len() ==> Gallery::read(#[trigger] items[i]) is Some
    }

    /// The values that a field holds, which must be a list in which every
    /// item holds a value. They keep their order.
    pub open spec fn read_list(field: Option<Node>) -> Option<Seq<GalleryView>> {
        match field {
            Some(Node::List(items)) => if Gallery::all_read(items@) {
                Some(Seq::new(items@.len(), |i: int| Gallery::read(items@[i])->0))
            } else {
                None
            },
            _ => None,
        }
    }

    /// Reads a value out of a node.
    pub fn from_node(node: &Node) -> (value: Option<Gallery>)
        ensures
            value matches Some(v) ==> Gallery::read(*node) == Some(v@),
            value is None ==> Gallery::read(*node) is None,
    {
        match node {
            Node::Record(fields) => {
                let url = match read_text(find(fields, "url")) {
                    Some(value) => value,
                    None => {
                        return None;
                    },
                };
                let featured = match read_flag(find(fields, "featured")) {
                    Some(value) => value,
                    None => {
                        return None;
                    },
                };
                let title = match read_text(find(fields, "title")) {
                    Some(value) => value,
                    None => {
                        return None;
                    },
                };
                let description = match read_text(find(fields, "description")) {
                    Some(value) => value,
                    None => {
                        return None;
                    },
                };
                let created = match read_text(find(fields, "created")) {
                    Some(value) => value,
                    None => {
                        return None;
                    },
                };
                let ordering = match read_whole(find(fields, "ordering")) {
                    Some(value) => value,
                    None => {
                        return None;
                    },
                };
                Some(
                    Gallery {
                        url,
                        featured,
                        title,
                        description,
                        created,
                        ordering,
                    },
                )
            },
            _ => None,
        }
    }

    /// Reads the values that a field holds, which must be a list in which
    /// every item holds a value.
    #[verifier::loop_isolation(false)]
    pub fn from_list(field: Option<&Node>) -> (values: Option<Vec<Gallery>>)
        ensures
            values matches Some(list) ==> Gallery::read_list(deref_field(field)) == Some(
                Seq::new(list@.len(), |i: int| list@[i]@),
            ),
            values is None ==> Gallery::read_list(deref_field(field)) is None,
    {
        match field {
            Some(Node::List(items)) => {
                let mut list: Vec<Gallery> = Vec::new();
                let mut i: usize = 0;
                while i < items.len()
                    invariant
                        i <= items.len(),
                        list.len() == i,
                        Gallery::all_read(items@.take(i as int)),
                        forall|j: int|
                            0 <= j < i ==> Gallery::read(items@[j]) == Some((#[trigger] list[j])@),
                    decreases items.len() - i,
                {
                    match Gallery::from_node(&items[i]) {
                        Some(value) => {
                            list.push(value);
                        },
                        None => {
                            proof {
                                assert(Gallery::read(items@[i as int]) is None);
                            }
                            return None;
                        },
                    }
                    i += 1;
                }
                proof {
                    assert(items@.take(i as int) =~= items@);
                    assert(Seq::new(list@.len(), |i: int| list@[i]@) =~= Seq::new(
                        items@.len(),
                        |i: int| Gallery::read(items@[i])->0,
                    ));
                }
                Some(list)
            },
            _ => None,
        }
    }
}

/// One project in the answer to a search.
#[derive(Default, Debug, Clone, PartialEq)]
pub struct SearchHit {
    pub project_id: String,
    pub project_type: String,
    pub slug: String,
    pub author: String,
    pub title: String,
    pub description: String,
    pub categories: Vec<String>,
    pub display_categories: Vec<String>,
    pub versions: Vec<String>,
    pub downloads: i64,
    pub follows: i64,
    pub icon_url: String,
    pub date_created: String,
    pub date_modified: String,
    pub latest_version: String,
    pub license: String,
    pub client_side: String,
    pub server_side: String,
    pub gallery: Vec<String>,
    pub featured_gallery: Option<String>,
    pub color: Option<i64>,
}

/// What a [`SearchHit`] holds.
pub struct SearchHitView {
    pub project_id: Seq<char>,
    pub project_type: Seq<char>,
    pub slug: Seq<char>,
    pub author: Seq<char>,
    pub title: Seq<char>,
    pub description: Seq<char>,
    pub categories: Seq<Seq<char>>,
    pub display_categories: Seq<Seq<char>>,
    pub versions: Seq<Seq<char>>,
    pub downloads: i64,
    pub follows: i64,
    pub icon_url: Seq<char>,
    pub date_created: Seq<char>,
    pub date_modified: Seq<char>,
    pub latest_version: Seq<char>,
    pub license: Seq<char>,
    pub client_side: Seq<char>,
    pub server_side: Seq<char>,
    pub gallery: Seq<Seq<char>>,
    pub featured_gallery: Option<Seq<char>>,
    pub color: Option<i64>,
}

impl View for SearchHit {
    type V = SearchHitView;

    open spec fn view(&self) -> SearchHitView {
        SearchHitView {
            project_id: self.project_id@,
            project_type: self.project_type@,
            slug: self.slug@,
            author: self.author@,
            title: self.title@,
            description: self.description@,
            categories: self.categories.deep_view(),
            display_categories: self.display_categories.deep_view(),
            versions: self.versions.deep_view(),
            downloads: self.downloads,
            follows: self.follows,
            icon_url: self.icon_url@,
            date_created: self.date_created@,
            date_modified: self.date_modified@,
            latest_version: self.latest_version@,
            license: self.license@,
            client_side: self.client_side@,
            server_side: self.server_side@,
            gallery: self.gallery.deep_view(),
            featured_gallery: self.featured_gallery.deep_view(),
            color: self.color,
        }
    }
}

impl SearchHit {
    /// The value that a node holds: a record in which every key named here
    /// has a value of the kind its field asks for. Other keys are ignored.
    pub open spec fn read(node: Node) -> Option<SearchHitView> {
        match node {
            Node::Record(fields) => {
                let project_id = text_of(lookup(fields@, "project_id"@));
                let project_type = text_of(lookup(fields@, "project_type"@));
                let slug = text_of(lookup(fields@, "slug"@));
                let author = text_of(lookup(fields@, "author"@));
                let title = text_of(lookup(fields@, "title"@));
                let description = text_of(lookup(fields@, "description"@));
                let categories = texts_of(lookup(fields@, "categories"@));
                let display_categories = texts_of(lookup(fields@, "display_categories"@));
                let versions = texts_of(lookup(fields@, "versions"@));
                let downloads = whole_of(lookup(fields@, "downloads"@));
                let follows = whole_of(lookup(fields@, "follows"@));
                let icon_url = text_of(lookup(fields@, "icon_url"@));
                let date_created = text_of(lookup(fields@, "date_created"@));
                let date_modified = text_of(lookup(fields@, "date_modified"@));
                let latest_version = text_of(lookup(fields@, "latest_version"@));
                let license = text_of(lookup(fields@, "license"@));
                let client_side = text_of(lookup(fields@, "client_side"@));
                let server_side = text_of(lookup(fields@, "server_side"@));
                let gallery = texts_of(lookup(fields@, "gallery"@));
                let featured_gallery = optional_text_of(lookup(fields@, "featured_gallery"@));
                let color = optional_whole_of(lookup(fields@, "color"@));
                if project_id is Some
                    && project_type is Some
                    && slug is Some
                    && author is Some
                    && title is Some
                    && description is Some
                    && categories is Some
                    && display_categories is Some
                    && versions is Some
                    && downloads is Some
                    && follows is Some
                    && icon_url is Some
                    && date_created is Some
                    && date_modified is Some
                    && latest_version is Some
                    && license is Some
                    && client_side is Some
                    && server_side is Some
                    && gallery is Some
                    && featured_gallery is Some
                    && color is Some
                {
                    Some(
                        SearchHitView {
                            project_id: project_id->0,
                            project_type: project_type->0,
                            slug: slug->0,
                            author: author->0,
                            title: title->0,
                            description: description->0,
                            categories: categories->0,
                            display_categories: display_categories->0,
                            versions: versions->0,
                            downloads: downloads->0,
                            follows: follows->0,
                            icon_url: icon_url->0,
                            date_created: date_created->0,
                            date_modified: date_modified->0,
                            latest_version: latest_version->0,
                            license: license->0,
                            client_side: client_side->0,
                            server_side: server_side->0,
                            gallery: gallery->0,
                            featured_gallery: featured_gallery->0,
                            color: color->0,
                        },
                    )
                } else {
                    None
                }
            },
            _ => None,
        }
    }

    /// Whether every item holds a value.
    pub open spec fn all_read(items: Seq<Node>) -> bool {
        forall|i: int| 0 <= i < items.len() ==> SearchHit::read(#[trigger] items[i]) is Some
    }

    /// The values that a field holds, which must be a list in which every
    /// item holds a value. They keep their order.
    pub open spec fn read_list(field: Option<Node>) -> Option<Seq<SearchHitView>> {
        match field {
            Some(Node::List(items)) => if SearchHit::all_read(items@) {
                Some(Seq::new(items@.len(), |i: int| SearchHit::read(items@[i])->0))
            } else {
                None
            },
            _ => None,
        }
    }

    /// Reads a value out of a node.
    pub fn from_node(node: &Node) -> (value: Option<SearchHit>)
        ensures
            value matches Some(v) ==> SearchHit::read(*node) == Some(v@),
            value is None ==> SearchHit::read(*node) is None,
    {
        match node {
            Node::Record(fields) => {
                let project_id = match read_text(find(fields, "project_id")) {
                    Some(value) => value,
                    None => {
                        return None;
                    },
                };
                let project_type = match read_text(find(fields, "project_type")) {
                    Some(value) => value,
                    None => {
                        return None;
                    },
                };
                let slug = match read_text(find(fields, "slug")) {
                    Some(value) => value,
                    None => {
                        return None;
                    },
                };
                let author = match read_text(find(fields, "author")) {
                    Some(value) => value,
                    None => {
                        return None;
                    },
                };
                let title = match read_text(find(fields, "title")) {
                    Some(value) => value,
                    None => {
                        return None;
                    },
                };
                let description = match read_text(find(fields, "description")) {
                    Some(value) => value,
                    None => {
                        return None;
                    },
                };
                let categories = match read_texts(find(fields, "categories")) {
                    Some(value) => value,
                    None => {
                        return None;
                    },
                };
                let display_categories = match read_texts(find(fields, "display_categories")) {
                    Some(value) => value,
                    None => {
                        return None;
                    },
                };
                let versions = match read_texts(find(fields, "versions")) {
                    Some(value) => value,
                    None => {
                        return None;
                    },
                };
                let downloads = match read_whole(find(fields, "downloads")) {
                    Some(value) => value,
                    None => {
                        return None;
                    },
                };
                let follows = match read_whole(find(fields, "follows")) {
                    Some(value) => value,
                    None => {
                        return None;
                    },
                };
                let icon_url = match read_text(find(fields, "icon_url")) {
                    Some(value) => value,
                    None => {
                        return None;
                    },
                };
                let date_created = match read_text(find(fields, "date_created")) {
                    Some(value) => value,
                    None => {
                        return None;
                    },
                };
                let date_modified = match read_text(find(fields, "date_modified")) {
                    Some(value) => value,
                    None => {
                        return None;
                    },
                };
                let latest_version = match read_text(find(fields, "latest_version")) {
                    Some(value) => value,
                    None => {
                        return None;
                    },
                };
                let license = match read_text(find(fields, "license")) {
                    Some(value) => value,
                    None => {
                        return None;
                    },
                };
                let client_side = match read_text(find(fields, "client_side")) {
                    Some(value) => value,
                    None => {
                        return None;
                    },
                };
                let server_side = match read_text(find(fields, "server_side")) {
                    Some(value) => value,
                    None => {
                        return None;
                    },
                };
                let gallery = match read_texts(find(fields, "gallery")) {
                    Some(value) => value,
                    None => {
                        return None;
                    },
                };
                let featured_gallery = match read_optional_text(find(fields, "featured_gallery")) {
                    Some(value) => value,
                    None => {
                        return None;
                    },
                };
                let color = match read_optional_whole(find(fields, "color")) {
                    Some(value) => value,
                    None => {
                        return None;
                    },
                };
                Some(
                    SearchHit {
                        project_id,
                        project_type,
                        slug,
                        author,
                        title,
                        description,
                        categories,
                        display_categories,
                        versions,
                        downloads,
                        follows,
                        icon_url,
                        date_created,
                        date_modified,
                        latest_version,
                        license,
                        client_side,
                        server_side,
                        gallery,
                        featured_gallery,
                        color,
                    },
                )
            },
            _ => None,
        }
    }

    /// Reads the values that a field holds, which must be a list in which
    /// every item holds a value.
    #[verifier::loop_isolation(false)]
    pub fn from_list(field: Option<&Node>) -> (values: Option<Vec<SearchHit>>)
        ensures
            values matches Some(list) ==> SearchHit::read_list(deref_field(field)) == Some(
                Seq::new(list@.len(), |i: int| list@[i]@),
            ),
            values is None ==> SearchHit::read_list(deref_field(field)) is None,
    {
        match field {
            Some(Node::List(items)) => {
                let mut list: Vec<SearchHit> = Vec::new();
                let mut i: usize = 0;
                while i < items.len()
                    invariant
                        i <= items.len(),
                        list.len() == i,
                        SearchHit::all_read(items@.take(i as int)),
                        forall|j: int|
                            0 <= j < i ==> SearchHit::read(items@[j]) == Some((#[trigger] list[j])@),
                    decreases items.len() - i,
                {
                    match SearchHit::from_node(&items[i]) {
                        Some(value) => {
                            list.push(value);
                        },
                        None => {
                            proof {
                                assert(SearchHit::read(items@[i as int]) is None);
                            }
                            return None;
                        },
                    }
                    i += 1;
                }
                proof {
                    assert(items@.take(i as int) =~= items@);
                    assert(Seq::new(list@.len(), |i: int| list@[i]@) =~= Seq::new(
                        items@.len(),
                        |i: int| SearchHit::read(items@[i])->0,
                    ));
                }
                Some(list)
            },
            _ => None,
        }
    }
}

/// The answer to a search: one page of hits.
#[derive(Default, Debug, Clone, PartialEq)]
pub struct SearchResponse {
    pub hits: Vec<SearchHit>,
    pub offset: i64,
    pub limit: i64,
    pub total_hits: i64,
}

/// What a [`SearchResponse`] holds.
pub struct SearchResponseView {
    pub hits: Seq<SearchHitView>,
    pub offset: i64,
    pub limit: i64,
    pub total_hits: i64,
}

impl View for SearchResponse {
    type V = SearchResponseView;

    open spec fn view(&self) -> SearchResponseView {
        SearchResponseView {
            hits: Seq::new(self.hits@.len(), |i: int| self.hits@[i]@),
            offset: self.offset,
            limit: self.limit,
            total_hits: self.total_hits,
        }
    }
}

impl SearchResponse {
    /// The value that a node holds: a record in which every key named here
    /// has a value of the kind its field asks for. Other keys are ignored.
    pub open spec fn read(node: Node) -> Option<SearchResponseView> {
        match node {
            Node::Record(fields) => {
                let hits = SearchHit::read_list(lookup(fields@, "hits"@));
                let offset = whole_of(lookup(fields@, "offset"@));
                let limit = whole_of(lookup(fields@, "limit"@));
                let total_hits = whole_of(lookup(fields@, "total_hits"@));
                if hits is Some
                    && offset is Some
                    && limit is Some
                    && total_hits is Some
                {
                    Some(
                        SearchResponseView {
                            hits: hits->0,
                            offset: offset->0,
                            limit: limit->0,
                            total_hits: total_hits->0,
                        },
                    )
                } else {
                    None
                }
            },
            _ => None,
        }
    }

    /// Reads a value out of a node.
    pub fn from_node(node: &Node) -> (value: Option<SearchResponse>)
        ensures
            value matches Some(v) ==> SearchResponse::read(*node) == Some(v@),
            value is None ==> SearchResponse::read(*node) is None,
    {
        match node {
            Node::Record(fields) => {
                let hits = match SearchHit::from_list(find(fields, "hits")) {
                    Some(value) => value,
                    None => {
                        return None;
                    },
                };
                let offset = match read_whole(find(fields, "offset")) {
                    Some(value) => value,
                    None => {
                        return None;
                    },
                };
                let limit = match read_whole(find(fields, "limit")) {
                    Some(value) => value,
                    None => {
                        return None;
                    },
                };
                let total_hits = match read_whole(find(fields, "total_hits")) {
                    Some(value) => value,
                    None => {
                        return None;
                    },
                };
                Some(
                    SearchResponse {
                        hits,
                        offset,
                        limit,
                        total_hits,
                    },
                )
            },
            _ => None,
        }
    }
}

/// A project as the registry describes it.
#[derive(Default, Debug, Clone, PartialEq)]
pub struct Project {
    pub slug: String,
    pub title: String,
    pub description: String,
    pub categories: Vec<String>,
    pub client_side: String,
    pub server_side: String,
    pub body: String,
    pub additional_categories: Vec<String>,
    pub issues_url: String,
    pub source_url: String,
    pub wiki_url: String,
    pub discord_url: String,
    pub donation_urls: Vec<DonationUrl>,
    pub project_type: String,
    pub downloads: Option<i64>,
    pub icon_url: String,
    pub color: Option<i64>,
    pub id: String,
    pub team: String,
    pub body_url: Option<String>,
    pub moderator_message: Option<String>,
    pub published: String,
    pub updated: String,
    pub approved: String,
    pub followers: Option<i64>,
    pub status: String,
    pub license: License,
    pub versions: Vec<String>,
    pub game_versions: Vec<String>,
    pub loaders: Vec<String>,
    pub gallery: Vec<Gallery>,
}

/// What a [`Project`] holds.
pub struct ProjectView {
    pub slug: Seq<char>,
    pub title: Seq<char>,
    pub description: Seq<char>,
    pub categories: Seq<Seq<char>>,
    pub client_side: Seq<char>,
    pub server_side: Seq<char>,
    pub body: Seq<char>,
    pub additional_categories: Seq<Seq<char>>,
    pub issues_url: Seq<char>,
    pub source_url: Seq<char>,
    pub wiki_url: Seq<char>,
    pub discord_url: Seq<char>,
    pub donation_urls: Seq<DonationUrlView>,
    pub project_type: Seq<char>,
    pub downloads: Option<i64>,
    pub icon_url: Seq<char>,
    pub color: Option<i64>,
    pub id: Seq<char>,
    pub team: Seq<char>,
    pub body_url: Option<Seq<char>>,
    pub moderator_message: Option<Seq<char>>,
    pub published: Seq<char>,
    pub updated: Seq<char>,
    pub approved: Seq<char>,
    pub followers: Option<i64>,
    pub status: Seq<char>,
    pub license: LicenseView,
    pub versions: Seq<Seq<char>>,
    pub game_versions: Seq<Seq<char>>,
    pub loaders: Seq<Seq<char>>,
    pub gallery: Seq<GalleryView>,
}

impl View for Project {
    type V = ProjectView;

    open spec fn view(&self) -> ProjectView {
        ProjectView {
            slug: self.slug@,
            title: self.title@,
            description: self.description@,
            categories: self.categories.deep_view(),
            client_side: self.client_side@,
            server_side: self.server_side@,
            body: self.body@,
            additional_categories: self.additional_categories.deep_view(),
            issues_url: self.issues_url@,
            source_url: self.source_url@,
            wiki_url: self.wiki_url@,
            discord_url: self.discord_url@,
            donation_urls: Seq::new(self.donation_urls@.len(), |i: int| self.donation_urls@[i]@),
            project_type: self.project_type@,
            downloads: self.downloads,
            icon_url: self.icon_url@,
            color: self.color,
            id: self.id@,
            team: self.team@,
            body_url: self.body_url.deep_view(),
            moderator_message: self.moderator_message.deep_view(),
            published: self.published@,
            updated: self.updated@,
            approved: self.approved@,
            followers: self.followers,
            status: self.status@,
            license: self.license@,
            versions: self.versions.deep_view(),
            game_versions: self.game_versions.deep_view(),
            loaders: self.loaders.deep_view(),
            gallery: Seq::new(self.gallery@.len(), |i: int| self.gallery@[i]@),
        }
    }
}

impl Project {
    /// The value that a node holds: a record in which every key named here
    /// has a value of the kind its field asks for. Other keys are ignored.
    pub open spec fn read(node: Node) -> Option<ProjectView> {
        match node {
            Node::Record(fields) => {
                let slug = text_of(lookup(fields@, "slug"@));
                let title = text_of(lookup(fields@, "title"@));
                let description = text_of(lookup(fields@, "description"@));
                let categories = texts_of(lookup(fields@, "categories"@));
                let client_side = text_of(lookup(fields@, "client_side"@));
                let server_side = text_of(lookup(fields@, "server_side"@));
                let body = text_of(lookup(fields@, "body"@));
                let additional_categories = texts_of(lookup(fields@, "additional_categories"@));
                let issues_url = text_of(lookup(fields@, "issues_url"@));
                let source_url = text_of(lookup(fields@, "source_url"@));
                let wiki_url = text_of(lookup(fields@, "wiki_url"@));
                let discord_url = text_of(lookup(fields@, "discord_url"@));
                let donation_urls = DonationUrl::read_list(lookup(fields@, "donation_urls"@));
                let project_type = text_of(lookup(fields@, "project_type"@));
                let downloads = optional_whole_of(lookup(fields@, "downloads"@));
                let icon_url = text_of(lookup(fields@, "icon_url"@));
                let color = optional_whole_of(lookup(fields@, "color"@));
                let id = text_of(lookup(fields@, "id"@));
                let team = text_of(lookup(fields@, "team"@));
                let body_url = optional_text_of(lookup(fields@, "body_url"@));
                let moderator_message = optional_text_of(lookup(fields@, "moderator_message"@));
                let published = text_of(lookup(fields@, "published"@));
                let updated = text_of(lookup(fields@, "updated"@));
                let approved = text_of(lookup(fields@, "approved"@));
                let followers = optional_whole_of(lookup(fields@, "followers"@));
                let status = text_of(lookup(fields@, "status"@));
                let license = License::read_field(lookup(fields@, "license"@));
                let versions = texts_of(lookup(fields@, "versions"@));
                let game_versions = texts_of(lookup(fields@, "game_versions"@));
                let loaders = texts_of(lookup(fields@, "loaders"@));
                let gallery = Gallery::read_list(lookup(fields@, "gallery"@));
                if slug is Some
                    && title is Some
                    && description is Some
                    && categories is Some
                    && client_side is Some
                    && server_side is Some
                    && body is Some
                    && additional_categories is Some
                    && issues_url is Some
                    && source_url is Some
                    && wiki_url is Some
                    && discord_url is Some
                    && donation_urls is Some
                    && project_type is Some
                    && downloads is Some
                    && icon_url is Some
                    && color is Some
                    && id is Some
                    && team is Some
                    && body_url is Some
                    && moderator_message is Some
                    && published is Some
                    && updated is Some
                    && approved is Some
                    && followers is Some
                    && status is Some
                    && license is Some
                    && versions is Some
                    && game_versions is Some
                    && loaders is Some
                    && gallery is Some
                {
                    Some(
                        ProjectView {
                            slug: slug->0,
                            title: title->0,
                            description: description->0,
                            categories: categories->0,
                            client_side: client_side->0,
                            server_side: server_side->0,
                            body: body->0,
                            additional_categories: additional_categories->0,
                            issues_url: issues_url->0,
                            source_url: source_url->0,
                            wiki_url: wiki_url->0,
                            discord_url: discord_url->0,
                            donation_urls: donation_urls->0,
                            project_type: project_type->0,
                            downloads: downloads->0,
                            icon_url: icon_url->0,
                            color: color->0,
                            id: id->0,
                            team: team->0,
                            body_url: body_url->0,
                            moderator_message: moderator_message->0,
                            published: published->0,
                            updated: updated->0,
                            approved: approved->0,
                            followers: followers->0,
                            status: status->0,
                            license: license->0,
                            versions: versions->0,
                            game_versions: game_versions->0,
                            loaders: loaders->0,
                            gallery: gallery->0,
                        },
                    )
                } else {
                    None
                }
            },
            _ => None,
        }
    }

    /// Reads a value out of a node.
    pub fn from_node(node: &Node) -> (value: Option<Project>)
        ensures
            value matches Some(v) ==> Project::read(*node) == Some(v@),
            value is None ==> Project::read(*node) is None,
    {
        match node {
            Node::Record(fields) => {
                let slug = match read_text(find(fields, "slug")) {
                    Some(value) => value,
                    None => {
                        return None;
                    },
                };
                let title = match read_text(find(fields, "title")) {
                    Some(value) => value,
                    None => {
                        return None;
                    },
                };
                let description = match read_text(find(fields, "description")) {
                    Some(value) => value,
                    None => {
                        return None;
                    },
                };
                let categories = match read_texts(find(fields, "categories")) {
                    Some(value) => value,
                    None => {
                        return None;
                    },
                };
                let client_side = match read_text(find(fields, "client_side")) {
                    Some(value) => value,
                    None => {
                        return None;
                    },
                };
                let server_side = match read_text(find(fields, "server_side")) {
                    Some(value) => value,
                    None => {
                        return None;
                    },
                };
                let body = match read_text(find(fields, "body")) {
                    Some(value) => value,
                    None => {
                        return None;
                    },
                };
                let additional_categories = match read_texts(find(fields, "additional_categories")) {
                    Some(value) => value,
                    None => {
                        return None;
                    },
                };
                let issues_url = match read_text(find(fields, "issues_url")) {
                    Some(value) => value,
                    None => {
                        return None;
                    },
                };
                let source_url = match read_text(find(fields, "source_url")) {
                    Some(value) => value,
                    None => {
                        return None;
                    },
                };
                let wiki_url = match read_text(find(fields, "wiki_url")) {
                    Some(value) => value,
                    None => {
                        return None;
                    },
                };
                let discord_url = match read_text(find(fields, "discord_url")) {
                    Some(value) => value,
                    None => {
                        return None;
                    },
                };
                let donation_urls = match DonationUrl::from_list(find(fields, "donation_urls")) {
                    Some(value) => value,
                    None => {
                        return None;
                    },
                };
                let project_type = match read_text(find(fields, "project_type")) {
                    Some(value) => value,
                    None => {
                        return None;
                    },
                };
                let downloads = match read_optional_whole(find(fields, "downloads")) {
                    Some(value) => value,
                    None => {
                        return None;
                    },
                };
                let icon_url = match read_text(find(fields, "icon_url")) {
                    Some(value) => value,
                    None => {
                        return None;
                    },
                };
                let color = match read_optional_whole(find(fields, "color")) {
                    Some(value) => value,
                    None => {
                        return None;
                    },
                };
                let id = match read_text(find(fields, "id")) {
                    Some(value) => value,
                    None => {
                        return None;
                    },
                };
                let team = match read_text(find(fields, "team")) {
                    Some(value) => value,
                    None => {
                        return None;
                    },
                };
                let body_url = match read_optional_text(find(fields, "body_url")) {
                    Some(value) => value,
                    None => {
                        return None;
                    },
                };
                let moderator_message = match read_optional_text(find(fields, "moderator_message")) {
                    Some(value) => value,
                    None => {
                        return None;
                    },
                };
                let published = match read_text(find(fields, "published")) {
                    Some(value) => value,
                    None => {
                        return None;
                    },
                };
                let updated = match read_text(find(fields, "updated")) {
                    Some(value) => value,
                    None => {
                        return None;
                    },
                };
                let approved = match read_text(find(fields, "approved")) {
                    Some(value) => value,
                    None => {
                        return None;
                    },
                };
                let followers = match read_optional_whole(find(fields, "followers")) {
                    Some(value) => value,
                    None => {
                        return None;
                    },
                };
                let status = match read_text(find(fields, "status")) {
                    Some(value) => value,
                    None => {
                        return None;
                    },
                };
                let license = match License::from_field(find(fields, "license")) {
                    Some(value) => value,
                    None => {
                        return None;
                    },
                };
                let versions = match read_texts(find(fields, "versions")) {
                    Some(value) => value,
                    None => {
                        return None;
                    },
                };
                let game_versions = match read_texts(find(fields, "game_versions")) {
                    Some(value) => value,
                    None => {
                        return None;
                    },
                };
                let loaders = match read_texts(find(fields, "loaders")) {
                    Some(value) => value,
                    None => {
                        return None;
                    },
                };
                let gallery = match Gallery::from_list(find(fields, "gallery")) {
                    Some(value) => value,
                    None => {
                        return None;
                    },
                };
                Some(
                    Project {
                        slug,
                        title,
                        description,
                        categories,
                        client_side,
                        server_side,
                        body,
                        additional_categories,
                        issues_url,
                        source_url,
                        wiki_url,
                        discord_url,
                        donation_urls,
                        project_type,
                        downloads,
                        icon_url,
                        color,
                        id,
                        team,
                        body_url,
                        moderator_message,
                        published,
                        updated,
                        approved,
                        followers,
                        status,
                        license,
                        versions,
                        game_versions,
                        loaders,
                        gallery,
                    },
                )
            },
            _ => None,
        }
    }
}

impl SearchHit {
    /// The mod that a search hit stands for. A hit names one author and
    /// carries no versions.
    pub open spec fn summary(hit: SearchHitView) -> ModView {
        ModView {
            id: hit.project_id,
            name: hit.title,
            description: hit.description,
            authors: seq![hit.author],
            versions: Seq::empty(),
        }
    }
}

impl Project {
    /// The mod that a project stands for. Its team is its one author, and
    /// it carries no versions.
    pub open spec fn summary(project: ProjectView) -> ModView {
        ModView {
            id: project.id,
            name: project.title,
            description: project.description,
            authors: seq![project.team],
            versions: Seq::empty(),
        }
    }
}

impl Mod {
    /// The mod that a search hit stands for.
    pub fn from_search_hit(hit: &SearchHit) -> (found: Mod)
        ensures
            found@ == SearchHit::summary(hit@),
    {
        let mut authors: Vec<String> = Vec::new();
        authors.push(hit.author.clone());
        let versions: Vec<ModVersion> = Vec::new();
        let found = Mod {
            id: hit.project_id.clone(),
            name: hit.title.clone(),
            description: hit.description.clone(),
            authors,
            versions,
        };
        proof {
            assert(found@.authors =~= seq![hit@.author]);
            assert(found@.versions =~= Seq::empty());
        }
        found
    }

    /// The mod that a project stands for.
    pub fn from_project(project: &Project) -> (found: Mod)
        ensures
            found@ == Project::summary(project@),
    {
        let mut authors: Vec<String> = Vec::new();
        authors.push(project.team.clone());
        let versions: Vec<ModVersion> = Vec::new();
        let found = Mod {
            id: project.id.clone(),
            name: project.title.clone(),
            description: project.description.clone(),
            authors,
            versions,
        };
        proof {
            assert(found@.authors =~= seq![project@.team]);
            assert(found@.versions =~= Seq::empty());
        }
        found
    }
}

/// `Mod::from` is specified by its own `ensures`, over views, and not by a
/// value written out here.
impl vstd::std_specs::convert::FromSpecImpl<SearchHit> for Mod {
    open spec fn obeys_from_spec() -> bool {
        false
    }

    open spec fn from_spec(value: SearchHit) -> Mod {
        arbitrary()
    }
}

impl From<SearchHit> for Mod {
    fn from(value: SearchHit) -> (found: Mod)
        ensures
            found@ == SearchHit::summary(value@),
    {
        Mod::from_search_hit(&value)
    }
}

/// `Mod::from` is specified by its own `ensures`, over views, and not by a
/// value written out here.
impl vstd::std_specs::convert::FromSpecImpl<Project> for Mod {
    open spec fn obeys_from_spec() -> bool {
        false
    }

    open spec fn from_spec(value: Project) -> Mod {
        arbitrary()
    }
}

impl From<Project> for Mod {
    fn from(value: Project) -> (found: Mod)
        ensures
            found@ == Project::summary(value@),
    {
        Mod::from_project(&value)
    }
}

/// What the body of a reply to a lookup comes to, given the document that
/// the body parses to.
pub open spec fn project_in(document: Option<Node>) -> Result<ModView, ModRegistryError> {
    match document {
        Some(node) => match Project::read(node) {
            Some(project) => Ok(Project::summary(project)),
            None => Err(ModRegistryError::ParseError),
        },
        None => Err(ModRegistryError::ParseError),
    }
}

/// What the body of a reply to a search comes to, given the document that
/// the body parses to: the mods of all its hits, in their order.
pub open spec fn hits_in(document: Option<Node>) -> Result<Seq<ModView>, ModRegistryError> {
    match document {
        Some(node) => match SearchResponse::read(node) {
            Some(response) => Ok(
                Seq::new(response.hits.len(), |i: int| SearchHit::summary(response.hits[i])),
            ),
            None => Err(ModRegistryError::ParseError),
        },
        None => Err(ModRegistryError::ParseError),
    }
}

/// What a reply to a lookup comes to.
pub open spec fn lookup_reply(reply: ReplyView) -> Result<ModView, ModRegistryError> {
    match reply {
        ReplyView::Failed => Err(ModRegistryError::RequestError),
        ReplyView::Body(text) => project_in(json_document(text)),
    }
}

/// What a reply to a search comes to.
pub open spec fn search_reply(reply: ReplyView) -> Result<Seq<ModView>, ModRegistryError> {
    match reply {
        ReplyView::Failed => Err(ModRegistryError::RequestError),
        ReplyView::Body(text) => hits_in(json_document(text)),
    }
}

/// The request that looks up the mod with the given identifier.
pub open spec fn lookup_request(id: Seq<char>) -> RequestView {
    RequestView { url: BASE_URL@ + "/project/"@ + id, query: Seq::empty() }
}

/// The request that searches for the given text.
pub open spec fn search_request(query: Seq<char>) -> RequestView {
    RequestView { url: BASE_URL@ + "/search"@, query: seq![("query"@, query)] }
}

/// The Modrinth registry.
#[derive(Default)]
pub struct ModrinthRegistry;

impl ModrinthRegistry {
    /// Reads the mod out of the document of a reply to a lookup.
    pub fn read_project(document: &Node) -> (result: Result<Mod, ModRegistryError>)
        ensures
            lookup_outcome(result) == project_in(Some(*document)),
    {
        match Project::from_node(document) {
            Some(project) => Ok(Mod::from_project(&project)),
            None => Err(ModRegistryError::ParseError),
        }
    }

    /// Reads the mods out of the document of a reply to a search.
    pub fn read_search(document: &Node) -> (result: Result<Vec<Mod>, ModRegistryError>)
        ensures
            search_outcome(result) == hits_in(Some(*document)),
    {
        match SearchResponse::from_node(document) {
            Some(response) => {
                let mut mods: Vec<Mod> = Vec::new();
                let mut i: usize = 0;
                while i < response.hits.len()
                    invariant
                        i <= response.hits.len(),
                        mods.len() == i,
                        forall|j: int|
                            0 <= j < i ==> (#[trigger] mods[j])@ == SearchHit::summary(
                                response.hits[j]@,
                            ),
                    decreases response.hits.len() - i,
                {
                    mods.push(Mod::from_search_hit(&response.hits[i]));
                    i += 1;
                }
                proof {
                    assert(Seq::new(mods@.len(), |i: int| mods@[i]@) =~= Seq::new(
                        response@.hits.len(),
                        |i: int| SearchHit::summary(response@.hits[i]),
                    ));
                }
                Ok(mods)
            },
            None => Err(ModRegistryError::ParseError),
        }
    }
}

impl ModRegistry for ModrinthRegistry {
    /// The request is `GET {BASE_URL}/project/{id}`, with the identifier as
    /// it is given.
    fn get_mod_request(&self, id: &str) -> (result: Result<Request, ModRegistryError>)
        ensures
            result matches Ok(request) && request@ == lookup_request(id@),
    {
        let mut url = BASE_URL.to_owned();
        url.append("/project/");
        url.append(id);
        let request = Request { url, query: Vec::new() };
        proof {
            assert(request@.query =~= Seq::empty());
        }
        Ok(request)
    }

    /// A failed reply is a `RequestError`, a body that does not hold a
    /// project is a `ParseError`, and any other body gives the project's mod.
    fn get_mod_reply(&self, reply: &Reply) -> (result: Result<Mod, ModRegistryError>)
        ensures
            lookup_outcome(result) == lookup_reply(reply@),
    {
        match reply {
            Reply::Failed => Err(ModRegistryError::RequestError),
            Reply::Body(text) => match parse_json(text.as_str()) {
                Some(document) => ModrinthRegistry::read_project(&document),
                None => Err(ModRegistryError::ParseError),
            },
        }
    }

    /// The request is `GET {BASE_URL}/search` with the text as the query
    /// parameter `query`.
    fn search_mods_request(&self, query: &str) -> (result: Result<Request, ModRegistryError>)
        ensures
            result matches Ok(request) && request@ == search_request(query@),
    {
        let mut url = BASE_URL.to_owned();
        url.append("/search");
        let mut parameters: Vec<(String, String)> = Vec::new();
        parameters.push(("query".to_owned(), query.to_owned()));
        let request = Request { url, query: parameters };
        proof {
            assert(request@.query =~= seq![("query"@, query@)]);
        }
        Ok(request)
    }

    /// A failed reply is a `RequestError`, a body that does not hold a page
    /// of hits is a `ParseError`, and any other body gives the mods of all
    /// its hits, in their order and without versions.
    fn search_mods_reply(&self, reply: &Reply) -> (result: Result<Vec<Mod>, ModRegistryError>)
        ensures
            search_outcome(result) == search_reply(reply@),
    {
        match reply {
            Reply::Failed => Err(ModRegistryError::RequestError),
            Reply::Body(text) => match parse_json(text.as_str()) {
                Some(document) => ModrinthRegistry::read_search(&document),
                None => Err(ModRegistryError::ParseError),
            },
        }
    }
}

/// A search gives summaries: every mod in its result carries no versions and
/// names one author.
pub proof fn search_gives_summaries(reply: ReplyView, position: int)
    requires
        search_reply(reply) matches Ok(mods) && 0 <= position < mods.len(),
    ensures
        search_reply(reply)->Ok_0[position].versions.len() == 0,
        search_reply(reply)->Ok_0[position].authors.len() == 1,
{
}

/// A search gives one mod for each hit of the page, in the order of the
/// hits, with the hit's `project_id` as its identifier.
pub proof fn search_keeps_the_hits(document: Node, position: int)
    requires
        SearchResponse::read(document) matches Some(response) && 0 <= position
            < response.hits.len(),
    ensures
        hits_in(Some(document)) matches Ok(mods) && mods.len() == SearchResponse::read(
            document,
        )->0.hits.len() && mods[position].id == SearchResponse::read(
            document,
        )->0.hits[position].project_id,
{
}

/// A lookup gives the mod that the body describes: its identifier is the
/// string that the body holds under `id`, and it carries no versions.
pub proof fn lookup_gives_the_id_of_the_body(document: Node)
    requires
        project_in(Some(document)) is Ok,
    ensures
        ({
            let found = project_in(Some(document))->Ok_0;
            &&& document matches Node::Record(fields)
            &&& text_of(lookup(fields@, "id"@)) == Some(found.id)
            &&& found.versions.len() == 0
        }),
{
}

/// A reply that failed is a request error for either operation, whatever
/// else is known: nothing is retried and nothing is made up.
pub proof fn failed_reply_is_a_request_error()
    ensures
        lookup_reply(ReplyView::Failed) == Err::<ModView, ModRegistryError>(
            ModRegistryError::RequestError,
        ),
        search_reply(ReplyView::Failed) == Err::<Seq<ModView>, ModRegistryError>(
            ModRegistryError::RequestError,
        ),
{
}

} // verus!

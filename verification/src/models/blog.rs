//! The gym's blog: posts, their slugs and their tags.
use vstd::prelude::*;
use vstd::std_specs::convert::FromSpecImpl;
use vstd::string::{StrSliceExecFns, StringExecFns};
use crate::error::AppError;
use crate::ids::{is_hyphenated_uuid, new_record_id, now_rfc3339};
use crate::text::{
    all_ascii, alphanumeric, ascii_alphanumeric, ascii_trim, ascii_uppercase, lemma_lowercase_of_uppercase,
    lemma_squash_keeps_slug, lemma_squash_empty, squash, ascii_lowercase, chars_of, clone_opt, dash_runs, is_alphanumeric,
    is_ascii_char, join_strings, join_with, lemma_split_join, lemma_squash_joins_runs,
    lemma_squash_well_formed, lowercase_of, or_else, owned, split_on, split_trimmed, squash_dashes,
    str_eq, string_from_chars, to_lowercase, trim, views, well_formed_slug,
};
use crate::validation::{
    failure_line, finish, length_ok, length_within, line_if, note_if, reports, lists_line, lemma_reported_line, lemma_line_if_contains, lemma_concat_contains,
};

verus! {

/// Where a blog post is in its life: being written, public, or withdrawn.
#[derive(Debug, Clone, Copy, PartialEq, Eq, Structural)]
pub enum BlogPostStatus {
    Draft,
    Published,
    Archived,
}

impl BlogPostStatus {
    /// The name under which a status is stored.
    pub open spec fn name(self) -> Seq<char> {
        match self {
            BlogPostStatus::Draft => "draft"@,
            BlogPostStatus::Published => "published"@,
            BlogPostStatus::Archived => "archived"@,
        }
    }

    /// The status that a lowercased stored name stands for; other names give `Draft`.
    pub open spec fn from_lowercase(s: Seq<char>) -> Self {
        if s == "published"@ {
            BlogPostStatus::Published
        } else if s == "archived"@ {
            BlogPostStatus::Archived
        } else {
            BlogPostStatus::Draft
        }
    }

    /// `k` is the kind that the stored name `stored` reads as: the one its
    /// lowercase form names, so that every stored name reads back as its own
    /// kind and an ASCII name reads through its ASCII lowercase form.
    pub open spec fn read_as(stored: Seq<char>, k: Self) -> bool {
        &&& k == Self::from_lowercase(lowercase_of(stored))
        &&& (all_ascii(stored) ==> k == Self::from_lowercase(ascii_lowercase(stored)))
        &&& forall|x: Self| stored == x.name() ==> k == x
    }

    /// Every stored name is ASCII, already lowercase, and parses back to its status.
    pub proof fn lemma_name_parses_back(self)
        ensures
            all_ascii(self.name()),
            ascii_lowercase(self.name()) == self.name(),
            Self::from_lowercase(self.name()) == self,
    {
        reveal_strlit("draft");
        reveal_strlit("published");
        reveal_strlit("archived");
        assert(ascii_lowercase(self.name()) =~= self.name());
    }

    /// The stored name of the status.
    pub fn to_string(&self) -> (s: String)
        ensures
            s@ == self.name(),
    {
        match self {
            BlogPostStatus::Draft => owned("draft"),
            BlogPostStatus::Published => owned("published"),
            BlogPostStatus::Archived => owned("archived"),
        }
    }
}

impl Default for BlogPostStatus {
    fn default() -> (r: Self)
        ensures
            r == BlogPostStatus::Draft,
    {
        BlogPostStatus::Draft
    }
}

impl From<String> for BlogPostStatus {
    /// Reads a stored name, ignoring case; other names give `Draft`.
    fn from(s: String) -> (r: Self)
        ensures
            r == Self::from_lowercase(lowercase_of(s@)),
            all_ascii(s@) ==> r == Self::from_lowercase(ascii_lowercase(s@)),
            forall|x: Self| s@ == x.name() ==> r == x,
    {
        let l = to_lowercase(s.as_str());
        proof {
            BlogPostStatus::Draft.lemma_name_parses_back();
            BlogPostStatus::Published.lemma_name_parses_back();
            BlogPostStatus::Archived.lemma_name_parses_back();
        }
        if str_eq(l.as_str(), "published") {
            BlogPostStatus::Published
        } else if str_eq(l.as_str(), "archived") {
            BlogPostStatus::Archived
        } else {
            BlogPostStatus::Draft
        }
    }
}

impl FromSpecImpl<String> for BlogPostStatus {
    open spec fn obeys_from_spec() -> bool {
        true
    }

    open spec fn from_spec(v: String) -> Self {
        Self::from_lowercase(lowercase_of(v@))
    }
}

/// The section of the blog that a post belongs to.
#[derive(Debug, Clone, Copy, PartialEq, Eq, Structural)]
pub enum BlogCategory {
    News,
    Training,
    Nutrition,
    Events,
    Tips,
    Stories,
    Announcements,
    Other,
}

impl BlogCategory {
    /// The name under which a category is stored.
    pub open spec fn name(self) -> Seq<char> {
        match self {
            BlogCategory::News => "news"@,
            BlogCategory::Training => "training"@,
            BlogCategory::Nutrition => "nutrition"@,
            BlogCategory::Events => "events"@,
            BlogCategory::Tips => "tips"@,
            BlogCategory::Stories => "stories"@,
            BlogCategory::Announcements => "announcements"@,
            BlogCategory::Other => "other"@,
        }
    }

    /// The category that a lowercased stored name stands for; other names give `News`.
    pub open spec fn from_lowercase(s: Seq<char>) -> Self {
        if s == "training"@ {
            BlogCategory::Training
        } else if s == "nutrition"@ {
            BlogCategory::Nutrition
        } else if s == "events"@ {
            BlogCategory::Events
        } else if s == "tips"@ {
            BlogCategory::Tips
        } else if s == "stories"@ {
            BlogCategory::Stories
        } else if s == "announcements"@ {
            BlogCategory::Announcements
        } else if s == "other"@ {
            BlogCategory::Other
        } else {
            BlogCategory::News
        }
    }

    /// `k` is the kind that the stored name `stored` reads as: the one its
    /// lowercase form names, so that every stored name reads back as its own
    /// kind and an ASCII name reads through its ASCII lowercase form.
    pub open spec fn read_as(stored: Seq<char>, k: Self) -> bool {
        &&& k == Self::from_lowercase(lowercase_of(stored))
        &&& (all_ascii(stored) ==> k == Self::from_lowercase(ascii_lowercase(stored)))
        &&& forall|x: Self| stored == x.name() ==> k == x
    }

    /// Every stored name is ASCII, already lowercase, and parses back to its category.
    pub proof fn lemma_name_parses_back(self)
        ensures
            all_ascii(self.name()),
            ascii_lowercase(self.name()) == self.name(),
            Self::from_lowercase(self.name()) == self,
    {
        reveal_strlit("news");
        reveal_strlit("training");
        reveal_strlit("nutrition");
        reveal_strlit("events");
        reveal_strlit("tips");
        reveal_strlit("stories");
        reveal_strlit("announcements");
        reveal_strlit("other");
        assert("news"@[0] != "tips"@[0]);
        assert(ascii_lowercase(self.name()) =~= self.name());
    }

    /// The stored name of the category.
    pub fn to_string(&self) -> (s: String)
        ensures
            s@ == self.name(),
    {
        match self {
            BlogCategory::News => owned("news"),
            BlogCategory::Training => owned("training"),
            BlogCategory::Nutrition => owned("nutrition"),
            BlogCategory::Events => owned("events"),
            BlogCategory::Tips => owned("tips"),
            BlogCategory::Stories => owned("stories"),
            BlogCategory::Announcements => owned("announcements"),
            BlogCategory::Other => owned("other"),
        }
    }
}

impl Default for BlogCategory {
    fn default() -> (r: Self)
        ensures
            r == BlogCategory::News,
    {
        BlogCategory::News
    }
}

impl From<String> for BlogCategory {
    /// Reads a stored name, ignoring case; other names give `News`.
    fn from(s: String) -> (r: Self)
        ensures
            r == Self::from_lowercase(lowercase_of(s@)),
            all_ascii(s@) ==> r == Self::from_lowercase(ascii_lowercase(s@)),
            forall|x: Self| s@ == x.name() ==> r == x,
    {
        let l = to_lowercase(s.as_str());
        proof {
            BlogCategory::News.lemma_name_parses_back();
            BlogCategory::Training.lemma_name_parses_back();
            BlogCategory::Nutrition.lemma_name_parses_back();
            BlogCategory::Events.lemma_name_parses_back();
            BlogCategory::Tips.lemma_name_parses_back();
            BlogCategory::Stories.lemma_name_parses_back();
            BlogCategory::Announcements.lemma_name_parses_back();
            BlogCategory::Other.lemma_name_parses_back();
        }
        if str_eq(l.as_str(), "training") {
            BlogCategory::Training
        } else if str_eq(l.as_str(), "nutrition") {
            BlogCategory::Nutrition
        } else if str_eq(l.as_str(), "events") {
            BlogCategory::Events
        } else if str_eq(l.as_str(), "tips") {
            BlogCategory::Tips
        } else if str_eq(l.as_str(), "stories") {
            BlogCategory::Stories
        } else if str_eq(l.as_str(), "announcements") {
            BlogCategory::Announcements
        } else if str_eq(l.as_str(), "other") {
            BlogCategory::Other
        } else {
            BlogCategory::News
        }
    }
}

impl FromSpecImpl<String> for BlogCategory {
    open spec fn obeys_from_spec() -> bool {
        true
    }

    open spec fn from_spec(v: String) -> Self {
        Self::from_lowercase(lowercase_of(v@))
    }
}


/// A blog post as it is stored: category and status are kept as their names,
/// tags as one comma-separated text.
#[derive(Debug, Clone)]
pub struct BlogPost {
    pub id: String,
    pub title: String,
    pub slug: String,
    pub summary: Option<String>,
    pub content: String,
    pub category: String,
    pub tags: Option<String>,
    pub featured_image_url: Option<String>,
    pub author_id: String,
    pub status: String,
    pub publish_date: Option<String>,
    pub is_featured: bool,
    pub view_count: i32,
    pub created_at: String,
    pub updated_at: String,
}

/// The tags that a stored tag text lists: its comma-separated pieces, each
/// trimmed of surrounding whitespace; none when no text is stored.
pub open spec fn tag_list(tags: Option<String>) -> Seq<Seq<char>> {
    match tags {
        Some(t) => split_on(t@, ',').map_values(|p: Seq<char>| trim(p)),
        None => Seq::empty(),
    }
}

/// The tags that an ASCII tag text lists: its comma-separated pieces, each
/// trimmed of surrounding ASCII whitespace.
pub open spec fn ascii_tag_list(t: Seq<char>) -> Seq<Seq<char>> {
    split_on(t, ',').map_values(|p: Seq<char>| ascii_trim(p))
}

/// Reads the tags of a stored post.
pub fn read_tags(tags: &Option<String>) -> (r: Vec<String>)
    ensures
        views(r@) == tag_list(*tags),
        tags matches Some(t) ==> (all_ascii(t@) ==> views(r@) == ascii_tag_list(t@)),
{
    match tags {
        Some(t) => split_trimmed(t.as_str(), ','),
        None => {
            let r: Vec<String> = Vec::new();
            assert(views(r@) =~= Seq::<Seq<char>>::empty());
            r
        },
    }
}

/// A blog post as it is shown in full.
#[derive(Debug, Clone)]
pub struct BlogPostResponse {
    pub id: String,
    pub title: String,
    pub slug: String,
    pub summary: Option<String>,
    pub content: String,
    pub category: BlogCategory,
    pub tags: Vec<String>,
    pub featured_image_url: Option<String>,
    pub author_id: String,
    pub status: BlogPostStatus,
    pub publish_date: Option<String>,
    pub is_featured: bool,
    pub view_count: i32,
    pub created_at: String,
    pub updated_at: String,
}

/// `r` shows the stored post `b`: kinds are read back ignoring case and the
/// tag text is split into its trimmed pieces.
pub open spec fn shows_post(r: BlogPostResponse, b: BlogPost) -> bool {
    &&& r.id == b.id
    &&& r.title == b.title
    &&& r.slug == b.slug
    &&& r.summary == b.summary
    &&& r.content == b.content
    &&& BlogCategory::read_as(b.category@, r.category)
    &&& views(r.tags@) == tag_list(b.tags)
    &&& (b.tags matches Some(t) ==> (all_ascii(t@) ==> views(r.tags@) == ascii_tag_list(t@)))
    &&& r.featured_image_url == b.featured_image_url
    &&& r.author_id == b.author_id
    &&& BlogPostStatus::read_as(b.status@, r.status)
    &&& r.publish_date == b.publish_date
    &&& r.is_featured == b.is_featured
    &&& r.view_count == b.view_count
    &&& r.created_at == b.created_at
    &&& r.updated_at == b.updated_at
}

impl From<BlogPost> for BlogPostResponse {
    /// Shows a stored post: kinds are read back ignoring case and the tag text is split.
    fn from(b: BlogPost) -> (r: Self)
        ensures
            shows_post(r, b),
    {
        let tags = read_tags(&b.tags);
        BlogPostResponse {
            id: b.id,
            title: b.title,
            slug: b.slug,
            summary: b.summary,
            content: b.content,
            category: BlogCategory::from(b.category),
            tags,
            featured_image_url: b.featured_image_url,
            author_id: b.author_id,
            status: BlogPostStatus::from(b.status),
            publish_date: b.publish_date,
            is_featured: b.is_featured,
            view_count: b.view_count,
            created_at: b.created_at,
            updated_at: b.updated_at,
        }
    }
}

impl FromSpecImpl<BlogPost> for BlogPostResponse {
    /// The shown tags are a fresh list, so the conversion is described field by field on `from`.
    open spec fn obeys_from_spec() -> bool {
        false
    }

    open spec fn from_spec(b: BlogPost) -> Self {
        arbitrary()
    }
}

/// A blog post as it is listed, without its content.
#[derive(Debug, Clone)]
pub struct BlogPostSummaryResponse {
    pub id: String,
    pub title: String,
    pub slug: String,
    pub summary: Option<String>,
    pub category: BlogCategory,
    pub tags: Vec<String>,
    pub featured_image_url: Option<String>,
    pub author_id: String,
    pub publish_date: Option<String>,
    pub is_featured: bool,
    pub view_count: i32,
}

/// `r` lists the stored post `b` without its content.
pub open spec fn summarizes_post(r: BlogPostSummaryResponse, b: BlogPost) -> bool {
    &&& r.id == b.id
    &&& r.title == b.title
    &&& r.slug == b.slug
    &&& r.summary == b.summary
    &&& BlogCategory::read_as(b.category@, r.category)
    &&& views(r.tags@) == tag_list(b.tags)
    &&& (b.tags matches Some(t) ==> (all_ascii(t@) ==> views(r.tags@) == ascii_tag_list(t@)))
    &&& r.featured_image_url == b.featured_image_url
    &&& r.author_id == b.author_id
    &&& r.publish_date == b.publish_date
    &&& r.is_featured == b.is_featured
    &&& r.view_count == b.view_count
}

impl From<BlogPost> for BlogPostSummaryResponse {
    /// Lists a stored post: kinds are read back ignoring case and the tag text is split.
    fn from(b: BlogPost) -> (r: Self)
        ensures
            summarizes_post(r, b),
    {
        let tags = read_tags(&b.tags);
        BlogPostSummaryResponse {
            id: b.id,
            title: b.title,
            slug: b.slug,
            summary: b.summary,
            category: BlogCategory::from(b.category),
            tags,
            featured_image_url: b.featured_image_url,
            author_id: b.author_id,
            publish_date: b.publish_date,
            is_featured: b.is_featured,
            view_count: b.view_count,
        }
    }
}

impl FromSpecImpl<BlogPost> for BlogPostSummaryResponse {
    /// The listed tags are a fresh list, so the conversion is described field by field on `from`.
    open spec fn obeys_from_spec() -> bool {
        false
    }

    open spec fn from_spec(b: BlogPost) -> Self {
        arbitrary()
    }
}

/// What an administrator sends to write a new post.
#[derive(Debug, Clone)]
pub struct CreateBlogPostRequest {
    pub title: String,
    pub slug: Option<String>,
    pub summary: Option<String>,
    pub content: String,
    pub category: Option<BlogCategory>,
    pub tags: Option<Vec<String>>,
    pub featured_image_url: Option<String>,
    pub is_featured: Option<bool>,
    pub publish_immediately: Option<bool>,
}

/// What an administrator sends to change a post; absent fields stay as they are.
#[derive(Debug, Clone)]
pub struct UpdateBlogPostRequest {
    pub title: Option<String>,
    pub slug: Option<String>,
    pub summary: Option<String>,
    pub content: Option<String>,
    pub category: Option<BlogCategory>,
    pub tags: Option<Vec<String>>,
    pub featured_image_url: Option<String>,
    pub status: Option<BlogPostStatus>,
    pub is_featured: Option<bool>,
}

/// One page of listed posts.
#[derive(Debug, Clone)]
pub struct BlogPostListResponse {
    pub posts: Vec<BlogPostSummaryResponse>,
    pub total: i64,
    pub page: i64,
    pub per_page: i64,
}

/// Filters for the administrators' list of posts.
#[derive(Debug, Clone)]
pub struct BlogPostQuery {
    pub status: Option<String>,
    pub category: Option<String>,
    pub tag: Option<String>,
    pub featured_only: Option<bool>,
    pub author_id: Option<String>,
}

/// Filters for the public list of posts.
#[derive(Debug, Clone)]
pub struct PublicBlogQuery {
    pub category: Option<String>,
    pub tag: Option<String>,
}

/// How many featured posts the public front page shows.
pub const FEATURED_POSTS_SHOWN: i64 = 5;

/// How many of the latest posts the public front page shows.
pub const RECENT_POSTS_SHOWN: i64 = 10;

/// Each character that is not alphanumeric replaced by `-`.
pub open spec fn dashify(t: Seq<char>) -> Seq<char> {
    t.map_values(|c: char| if alphanumeric(c) { c } else { '-' })
}

/// The slug made from a title: lowercased, each character that is not
/// alphanumeric turned into `-`, split at `-`, the empty pieces dropped and
/// the others joined with `-`.
pub open spec fn slug_of(title: Seq<char>) -> Seq<char> {
    join_with(dash_runs(dashify(lowercase_of(title))), seq!['-'])
}

/// Whether `c` may appear in the slug of an ASCII title: a lowercase letter, a digit or a dash.
pub open spec fn ascii_slug_char(c: char) -> bool {
    c == '-' || ('a' <= c && c <= 'z') || ('0' <= c && c <= '9')
}

/// Each character that is not an ASCII letter or digit replaced by `-`.
pub open spec fn ascii_dashify(t: Seq<char>) -> Seq<char> {
    t.map_values(|c: char| if ascii_alphanumeric(c) { c } else { '-' })
}

/// The slug of an ASCII title: lowercased, each character that is not a
/// letter or digit turned into `-`, split at `-`, the empty pieces dropped and
/// the others joined with `-`.
pub open spec fn ascii_slug(title: Seq<char>) -> Seq<char> {
    join_with(dash_runs(ascii_dashify(ascii_lowercase(title))), seq!['-'])
}

/// Makes the slug of a title.
pub fn generate_slug(title: &str) -> (s: String)
    ensures
        s@ == slug_of(title@),
        all_ascii(title@) ==> s@ == ascii_slug(title@),
        all_ascii(title@) ==> forall|i: int| 0 <= i < s@.len() ==> ascii_slug_char(#[trigger] s@[i]),
{
    let lower = to_lowercase(title);
    let cs = chars_of(lower.as_str());
    let mut mapped: Vec<char> = Vec::new();
    let n = cs.len();
    let mut i: usize = 0;
    while i < n
        invariant
            n == cs.len(),
            cs@ == lowercase_of(title@),
            all_ascii(title@) ==> cs@ == ascii_lowercase(title@),
            i <= n,
            mapped@ == dashify(cs@.take(i as int)),
            all_ascii(title@) ==> mapped@ == ascii_dashify(cs@.take(i as int)),
            all_ascii(title@) ==> forall|j: int| 0 <= j < i ==> ascii_slug_char(#[trigger] mapped@[j]),
        decreases n - i,
    {
        let c = cs[i];
        let d = if is_alphanumeric(c) {
            c
        } else {
            '-'
        };
        proof {
            if all_ascii(title@) {
                assert(is_ascii_char(title@[i as int]));
                assert(c == crate::text::ascii_lower_char(title@[i as int]));
            }
        }
        mapped.push(d);
        assert(mapped@ =~= dashify(cs@.take(i + 1)));
        proof {
            if all_ascii(title@) {
                assert(mapped@ =~= ascii_dashify(cs@.take(i + 1)));
            }
        }
        i = i + 1;
    }
    assert(cs@.take(n as int) =~= cs@);
    let squashed = squash_dashes(&mapped);
    proof {
        lemma_squash_joins_runs(mapped@);
        lemma_squash_well_formed(mapped@);
        if all_ascii(title@) {
            assert forall|i: int| 0 <= i < squashed@.len() implies ascii_slug_char(
                #[trigger] squashed@[i],
            ) by {
                if squashed@[i] != '-' {
                    let k = choose|k: int| 0 <= k < mapped@.len() && mapped@[k] == squashed@[i];
                    assert(ascii_slug_char(mapped@[k]));
                }
            }
        }
    }
    string_from_chars(&squashed)
}

/// Every slug is well formed and made of alphanumeric characters and dashes.
pub proof fn law_slug_well_formed(title: Seq<char>)
    ensures
        well_formed_slug(slug_of(title)),
        forall|i: int|
            0 <= i < slug_of(title).len() ==> #[trigger] slug_of(title)[i] == '-' || alphanumeric(
                slug_of(title)[i],
            ),
{
    let d = dashify(lowercase_of(title));
    lemma_squash_joins_runs(d);
    lemma_squash_well_formed(d);
    assert forall|i: int| 0 <= i < slug_of(title).len() implies #[trigger] slug_of(title)[i] == '-'
        || alphanumeric(slug_of(title)[i]) by {
        let c = slug_of(title)[i];
        if c != '-' {
            let k = choose|k: int| 0 <= k < d.len() && d[k] == c;
        }
    }
}

/// The slug of an ASCII title is made of lowercase letters, digits and dashes,
/// is ASCII itself, and is well formed.
pub proof fn lemma_ascii_slug_chars(title: Seq<char>)
    requires
        all_ascii(title),
    ensures
        well_formed_slug(ascii_slug(title)),
        forall|i: int| 0 <= i < ascii_slug(title).len() ==> ascii_slug_char(#[trigger] ascii_slug(title)[i]),
        all_ascii(ascii_slug(title)),
{
    let d = ascii_dashify(ascii_lowercase(title));
    assert forall|k: int| 0 <= k < d.len() implies ascii_slug_char(#[trigger] d[k]) by {
        assert(is_ascii_char(title[k]));
    }
    lemma_squash_joins_runs(d);
    lemma_squash_well_formed(d);
    let sl = ascii_slug(title);
    assert forall|i: int| 0 <= i < sl.len() implies ascii_slug_char(#[trigger] sl[i]) by {
        if sl[i] != '-' {
            let k = choose|k: int| 0 <= k < d.len() && d[k] == sl[i];
            assert(ascii_slug_char(d[k]));
        }
    }
    assert forall|i: int| 0 <= i < sl.len() implies is_ascii_char(#[trigger] sl[i]) by {
        assert(ascii_slug_char(sl[i]));
    }
}

/// A slug is its own slug: making the slug of an ASCII title's slug gives it back.
pub proof fn law_slug_fixed_point(title: Seq<char>)
    requires
        all_ascii(title),
    ensures
        all_ascii(ascii_slug(title)),
        ascii_slug(ascii_slug(title)) == ascii_slug(title),
{
    lemma_ascii_slug_chars(title);
    let sl = ascii_slug(title);
    assert(ascii_lowercase(sl) =~= sl) by {
        assert forall|i: int| 0 <= i < sl.len() implies #[trigger] ascii_lowercase(sl)[i] == sl[i] by {
            assert(ascii_slug_char(sl[i]));
        }
    }
    assert(ascii_dashify(sl) =~= sl) by {
        assert forall|i: int| 0 <= i < sl.len() implies #[trigger] ascii_dashify(sl)[i] == sl[i] by {
            assert(ascii_slug_char(sl[i]));
        }
    }
    lemma_squash_joins_runs(sl);
    lemma_squash_keeps_slug(sl);
}

/// Letter case does not matter: an ASCII title written in capitals has the same slug.
pub proof fn law_slug_ignores_case(title: Seq<char>)
    requires
        all_ascii(title),
    ensures
        all_ascii(ascii_uppercase(title)),
        ascii_slug(ascii_uppercase(title)) == ascii_slug(title),
{
    lemma_lowercase_of_uppercase(title);
}

/// The slug of an ASCII title is empty exactly when the title has no letter or digit.
pub proof fn law_slug_empty(title: Seq<char>)
    requires
        all_ascii(title),
    ensures
        ascii_slug(title).len() == 0 <==> forall|i: int| 0 <= i < title.len() ==> !ascii_alphanumeric(
            #[trigger] title[i],
        ),
{
    let d = ascii_dashify(ascii_lowercase(title));
    lemma_squash_joins_runs(d);
    lemma_squash_empty(d);
    assert forall|i: int| 0 <= i < title.len() implies (#[trigger] d[i] == '-' <==> !ascii_alphanumeric(
        title[i],
    )) by {
        assert(is_ascii_char(title[i]));
    }
    assert(ascii_slug(title) == squash(d));
    if ascii_slug(title).len() == 0 {
        assert forall|i: int| 0 <= i < title.len() implies !ascii_alphanumeric(#[trigger] title[i]) by {
            assert(d[i] == '-');
        }
    } else {
        let k = choose|k: int| 0 <= k < d.len() && d[k] != '-';
        assert(ascii_alphanumeric(title[k]));
    }
}

/// The tag text stored for a list of tags: the tags joined by commas.
pub open spec fn joined_tags(tags: Vec<String>) -> Seq<char> {
    join_with(views(tags@), ","@)
}

/// Tags stored with a post are read back as they were written, provided there
/// is at least one and none holds a comma or begins or ends with whitespace.
pub proof fn law_tags_read_back(tags: Seq<Seq<char>>, stored: Option<String>)
    requires
        tags.len() >= 1,
        forall|i: int| 0 <= i < tags.len() ==> !(#[trigger] tags[i]).contains(','),
        forall|i: int| 0 <= i < tags.len() ==> trim(#[trigger] tags[i]) == tags[i],
        stored matches Some(t) && t@ == join_with(tags, ","@),
    ensures
        tag_list(stored) == tags,
{
    reveal_strlit(",");
    assert(","@ =~= seq![',']);
    lemma_split_join(tags, ',');
    assert(split_on(join_with(tags, ","@), ',').map_values(|p: Seq<char>| trim(p)) =~= tags);
}

/// Tags stored with a post are read back as they were written, in ASCII terms:
/// when there is at least one and none holds a comma or begins or ends with
/// ASCII whitespace, the stored text lists exactly those tags.
pub proof fn law_ascii_tags_read_back(tags: Seq<Seq<char>>, stored: Seq<char>)
    requires
        tags.len() >= 1,
        forall|i: int| 0 <= i < tags.len() ==> !(#[trigger] tags[i]).contains(','),
        forall|i: int| 0 <= i < tags.len() ==> ascii_trim(#[trigger] tags[i]) == tags[i],
        stored == join_with(tags, ","@),
    ensures
        ascii_tag_list(stored) == tags,
{
    reveal_strlit(",");
    assert(","@ =~= seq![',']);
    lemma_split_join(tags, ',');
    assert(split_on(join_with(tags, ","@), ',').map_values(|p: Seq<char>| ascii_trim(p)) =~= tags);
}

/// The report lines for a new post: the title must have 1 to 200 characters
/// and the content at least one.
pub open spec fn create_blog_post_failures(req: CreateBlogPostRequest) -> Seq<Seq<char>> {
    line_if(
        !length_within(req.title@, Some(1), Some(200)),
        failure_line("title"@, "Title must be between 1 and 200 characters"@),
    ) + line_if(
        !length_within(req.content@, Some(1), None),
        failure_line("content"@, "Content is required"@),
    )
}

impl CreateBlogPostRequest {
    /// Checks the request's fields.
    pub fn validate(&self) -> (r: Result<(), AppError>)
        ensures
            reports(r, create_blog_post_failures(*self)),
    {
        let mut lines: Vec<String> = Vec::new();
        let title_ok = length_ok(self.title.as_str(), Some(1), Some(200));
        note_if(&mut lines, !title_ok, "title", "Title must be between 1 and 200 characters");
        let content_ok = length_ok(self.content.as_str(), Some(1), None);
        note_if(&mut lines, !content_ok, "content", "Content is required");
        finish(lines)
    }
}

/// The slug that a new post asks for: the one given, or else the one made from its title.
pub open spec fn requested_slug(req: CreateBlogPostRequest) -> Seq<char> {
    match req.slug {
        Some(s) => s@,
        None => slug_of(req.title@),
    }
}

/// The slug that a new post asks for.
pub fn blog_slug_candidate(req: &CreateBlogPostRequest) -> (s: String)
    ensures
        s@ == requested_slug(*req),
        req.slug is None && all_ascii(req.title@) ==> s@ == ascii_slug(req.title@),
{
    match &req.slug {
        Some(s) => s.clone(),
        None => generate_slug(req.title.as_str()),
    }
}

/// The slug under which a new post is stored: the requested one, or, when that
/// is already taken, the requested one followed by `-` and the first eight
/// characters of the post's identifier.
pub open spec fn final_slug(requested: Seq<char>, taken: bool, id: Seq<char>) -> Seq<char> {
    if taken {
        requested + "-"@ + id.take(8)
    } else {
        requested
    }
}

/// `p` is the post that `req` creates for `author_id` under `slug`, given
/// its identifier and the time of writing.
pub open spec fn created_blog_post(
    p: BlogPost,
    req: CreateBlogPostRequest,
    author_id: Seq<char>,
    slug: Seq<char>,
    id: String,
    now: String,
) -> bool {
    let immediate = or_else(req.publish_immediately, false);
    &&& p.id == id
    &&& p.title == req.title
    &&& p.slug@ == slug
    &&& p.summary == req.summary
    &&& p.content == req.content
    &&& p.category@ == or_else(req.category, BlogCategory::News).name()
    &&& p.tags matches Some(t) && t@ == (match req.tags {
        Some(ts) => joined_tags(ts),
        None => Seq::empty(),
    })
    &&& p.featured_image_url == req.featured_image_url
    &&& p.author_id@ == author_id
    &&& p.status@ == (if immediate {
        BlogPostStatus::Published
    } else {
        BlogPostStatus::Draft
    }).name()
    &&& p.publish_date == (if immediate {
        Some(now)
    } else {
        None
    })
    &&& p.is_featured == or_else(req.is_featured, false)
    &&& p.view_count == 0
    &&& p.created_at == now
    &&& p.updated_at == now
}

/// The post that `req` creates, with the given identifier and time; `slug` is
/// the requested slug and `slug_taken` whether a stored post already has it.
pub fn build_blog_post(
    req: &CreateBlogPostRequest,
    author_id: &str,
    slug: String,
    slug_taken: bool,
    id: String,
    now: String,
) -> (p: BlogPost)
    requires
        slug_taken ==> id@.len() >= 8 && all_ascii(id@.take(8)),
    ensures
        created_blog_post(p, *req, author_id@, final_slug(slug@, slug_taken, id@), id, now),
{
    let final_slug = if slug_taken {
        let prefix = id.as_str().substring_char(0, 8);
        slug.concat("-").concat(prefix)
    } else {
        slug
    };
    let category = match req.category {
        Some(c) => c,
        None => BlogCategory::News,
    };
    let tags = match &req.tags {
        Some(ts) => join_strings(ts, ","),
        None => String::new(),
    };
    let immediate = match req.publish_immediately {
        Some(b) => b,
        None => false,
    };
    let status = if immediate {
        BlogPostStatus::Published
    } else {
        BlogPostStatus::Draft
    };
    let publish_date = if immediate {
        Some(now.clone())
    } else {
        None
    };
    BlogPost {
        id,
        title: req.title.clone(),
        slug: final_slug,
        summary: clone_opt(&req.summary),
        content: req.content.clone(),
        category: category.to_string(),
        tags: Some(tags),
        featured_image_url: clone_opt(&req.featured_image_url),
        author_id: owned(author_id),
        status: status.to_string(),
        publish_date,
        is_featured: match req.is_featured {
            Some(b) => b,
            None => false,
        },
        view_count: 0,
        created_at: now.clone(),
        updated_at: now,
    }
}

/// A new post for `req` under a fresh identifier, stamped with the current time;
/// `slug` is the requested slug and `slug_taken` whether a stored post already has it.
pub fn new_blog_post(
    req: &CreateBlogPostRequest,
    author_id: &str,
    slug: String,
    slug_taken: bool,
) -> (p: BlogPost)
    ensures
        is_hyphenated_uuid(p.id@),
        created_blog_post(p, *req, author_id@, final_slug(slug@, slug_taken, p.id@), p.id, p.created_at),
{
    let id = new_record_id();
    let now = now_rfc3339();
    proof {
        assert forall|i: int| 0 <= i < id@.take(8).len() implies crate::text::is_ascii_char(
            #[trigger] id@.take(8)[i],
        ) by {
            assert(id@.take(8)[i] == id@[i]);
        }
    }
    build_blog_post(req, author_id, slug, slug_taken, id, now)
}

/// `r` is `existing` after `req` is applied at time `now`: every field that the
/// request carries replaces the stored one, the others stay, and the publication
/// date becomes `now` when the status turns to published.
pub open spec fn updated_blog_post(
    r: BlogPost,
    existing: BlogPost,
    req: UpdateBlogPostRequest,
    now: String,
) -> bool {
    let status = match req.status {
        Some(s) => s.name(),
        None => existing.status@,
    };
    &&& r.id == existing.id
    &&& r.title == or_else(req.title, existing.title)
    &&& r.slug == or_else(req.slug, existing.slug)
    &&& r.summary == (match req.summary {
        Some(s) => Some(s),
        None => existing.summary,
    })
    &&& r.content == or_else(req.content, existing.content)
    &&& (match req.category {
        Some(c) => r.category@ == c.name(),
        None => r.category == existing.category,
    })
    &&& (match req.tags {
        Some(ts) => r.tags matches Some(t) && t@ == joined_tags(ts),
        None => r.tags == existing.tags,
    })
    &&& r.featured_image_url == (match req.featured_image_url {
        Some(u) => Some(u),
        None => existing.featured_image_url,
    })
    &&& r.author_id == existing.author_id
    &&& r.status@ == status
    &&& (req.status is None ==> r.status == existing.status)
    &&& r.publish_date == (if status == "published"@ && existing.status@ != "published"@ {
        Some(now)
    } else {
        existing.publish_date
    })
    &&& r.is_featured == or_else(req.is_featured, existing.is_featured)
    &&& r.view_count == existing.view_count
    &&& r.created_at == existing.created_at
    &&& r.updated_at == now
}

/// Applies a change request to a stored post at time `now`.
pub fn merge_blog_post_update(existing: BlogPost, req: &UpdateBlogPostRequest, now: String) -> (r:
    BlogPost)
    ensures
        updated_blog_post(r, existing, *req, now),
{
    let title = match &req.title {
        Some(t) => t.clone(),
        None => existing.title,
    };
    let slug = match &req.slug {
        Some(s) => s.clone(),
        None => existing.slug,
    };
    let summary = match &req.summary {
        Some(s) => Some(s.clone()),
        None => existing.summary,
    };
    let content = match &req.content {
        Some(c) => c.clone(),
        None => existing.content,
    };
    let category = match req.category {
        Some(c) => c.to_string(),
        None => existing.category,
    };
    let tags = match &req.tags {
        Some(ts) => Some(join_strings(ts, ",")),
        None => existing.tags,
    };
    let featured_image_url = match &req.featured_image_url {
        Some(u) => Some(u.clone()),
        None => existing.featured_image_url,
    };
    let status = match req.status {
        Some(s) => s.to_string(),
        None => existing.status.clone(),
    };
    let is_featured = match req.is_featured {
        Some(b) => b,
        None => existing.is_featured,
    };
    let becomes_published = str_eq(status.as_str(), "published") && !str_eq(
        existing.status.as_str(),
        "published",
    );
    let publish_date = if becomes_published {
        Some(now.clone())
    } else {
        existing.publish_date
    };
    BlogPost {
        id: existing.id,
        title,
        slug,
        summary,
        content,
        category,
        tags,
        featured_image_url,
        author_id: existing.author_id,
        status,
        publish_date,
        is_featured,
        view_count: existing.view_count,
        created_at: existing.created_at,
        updated_at: now,
    }
}

/// Applies a change request to a stored post, stamped with the current time.
pub fn apply_blog_post_update(existing: BlogPost, req: &UpdateBlogPostRequest) -> (r: BlogPost)
    ensures
        updated_blog_post(r, existing, *req, r.updated_at),
{
    let now = now_rfc3339();
    merge_blog_post_update(existing, req, now)
}

/// Only published posts may be read by the public; others are answered as missing.
pub fn check_publicly_visible(post: &BlogPost) -> (r: Result<(), AppError>)
    ensures
        r is Ok <==> post.status@ == "published"@,
        r matches Err(e) ==> e is NotFound && e.detail() == "Blog post not found"@,
{
    if str_eq(post.status.as_str(), "published") {
        Ok(())
    } else {
        Err(AppError::NotFound(owned("Blog post not found")))
    }
}

/// `r` is `existing` published at time `now`: its status is published, its
/// publication is dated `now`, and nothing else changes but the time of change.
pub open spec fn published_blog_post(r: BlogPost, existing: BlogPost, now: String) -> bool {
    &&& r.status@ == BlogPostStatus::Published.name()
    &&& r == (BlogPost { status: r.status, publish_date: Some(now), updated_at: now, ..existing })
}

/// Publishes a stored post at time `now`.
pub fn publish_blog_post_at(existing: BlogPost, now: String) -> (r: BlogPost)
    ensures
        published_blog_post(r, existing, now),
{
    BlogPost {
        status: BlogPostStatus::Published.to_string(),
        publish_date: Some(now.clone()),
        updated_at: now,
        ..existing
    }
}


/// Publishes a stored post now.
pub fn publish_blog_post(existing: BlogPost) -> (r: BlogPost)
    ensures
        published_blog_post(r, existing, r.updated_at),
{
    publish_blog_post_at(existing, now_rfc3339())
}

/// `r` is `existing` archived at time `now`: only its status and the time of change differ.
pub open spec fn archived_blog_post(r: BlogPost, existing: BlogPost, now: String) -> bool {
    &&& r.status@ == BlogPostStatus::Archived.name()
    &&& r == (BlogPost { status: r.status, updated_at: now, ..existing })
}

/// Archives a stored post at time `now`.
pub fn archive_blog_post_at(existing: BlogPost, now: String) -> (r: BlogPost)
    ensures
        archived_blog_post(r, existing, now),
{
    BlogPost { status: BlogPostStatus::Archived.to_string(), updated_at: now, ..existing }
}


/// Archives a stored post now.
pub fn archive_blog_post(existing: BlogPost) -> (r: BlogPost)
    ensures
        archived_blog_post(r, existing, r.updated_at),
{
    archive_blog_post_at(existing, now_rfc3339())
}

/// Whether a change request carries no change at all.
pub open spec fn is_empty_blog_post_update(req: UpdateBlogPostRequest) -> bool {
    req.title is None && req.slug is None && req.summary is None && req.content is None && req.category is None && req.tags is None && req.featured_image_url is None && req.status is None && req.is_featured is None
}

/// A change request that carries nothing changes nothing but the time of the
/// post's last change.
pub proof fn law_empty_blog_post_update(r: BlogPost, existing: BlogPost, req: UpdateBlogPostRequest, now: String)
    requires
        updated_blog_post(r, existing, req, now),
        is_empty_blog_post_update(req),
    ensures
        r == (BlogPost { updated_at: now, ..existing }),
{
}

/// An update that turns a post to published dates its publication at the time
/// of the update; once a post is published, updates never move that date.
pub proof fn law_blog_publication_date(
    r: BlogPost,
    existing: BlogPost,
    req: UpdateBlogPostRequest,
    now: String,
)
    requires
        updated_blog_post(r, existing, req, now),
    ensures
        r.status@ == "published"@ && existing.status@ != "published"@ ==> r.publish_date == Some(now),
        existing.status@ == "published"@ ==> r.publish_date == existing.publish_date,
{
}



/// Validation accepts the request exactly when no field fails its rule, and
/// the report of a failed validation lists the line of every field that fails.
pub proof fn law_blog_post_validation(req: CreateBlogPostRequest, r: Result<(), AppError>)
    requires
        reports(r, create_blog_post_failures(req)),
    ensures
        r is Ok <==> (!(!(1 <= req.title@.len() <= 200)) && !(req.content@.len() < 1)),
        (!(1 <= req.title@.len() <= 200)) ==> lists_line(r, failure_line("title"@, "Title must be between 1 and 200 characters"@)),
        (req.content@.len() < 1) ==> lists_line(r, failure_line("content"@, "Content is required"@)),
{
    lemma_line_if_contains(!length_within(req.title@, Some(1), Some(200)), failure_line("title"@, "Title must be between 1 and 200 characters"@));
    lemma_line_if_contains(!length_within(req.content@, Some(1), None), failure_line("content"@, "Content is required"@));
    lemma_concat_contains(line_if(!length_within(req.title@, Some(1), Some(200)), failure_line("title"@, "Title must be between 1 and 200 characters"@)), line_if(!length_within(req.content@, Some(1), None), failure_line("content"@, "Content is required"@)), failure_line("title"@, "Title must be between 1 and 200 characters"@));
    lemma_concat_contains(line_if(!length_within(req.title@, Some(1), Some(200)), failure_line("title"@, "Title must be between 1 and 200 characters"@)), line_if(!length_within(req.content@, Some(1), None), failure_line("content"@, "Content is required"@)), failure_line("content"@, "Content is required"@));
    assert(create_blog_post_failures(req) == line_if(!length_within(req.title@, Some(1), Some(200)), failure_line("title"@, "Title must be between 1 and 200 characters"@)) + line_if(!length_within(req.content@, Some(1), None), failure_line("content"@, "Content is required"@)));
    if !length_within(req.title@, Some(1), Some(200)) {
        lemma_reported_line(r, create_blog_post_failures(req), failure_line("title"@, "Title must be between 1 and 200 characters"@));
    }
    if !length_within(req.content@, Some(1), None) {
        lemma_reported_line(r, create_blog_post_failures(req), failure_line("content"@, "Content is required"@));
    }
}


/// Updating a post sets every field that the request gives to the given
/// value, keeps every field that it leaves out, never touches the fields that
/// a request cannot change, and stamps the time of the change.
pub proof fn law_blog_post_update_fields(r: BlogPost, existing: BlogPost, req: UpdateBlogPostRequest, now: String)
    requires
        updated_blog_post(r, existing, req, now),
    ensures
        req.title matches Some(v) ==> r.title == v,
        req.title is None ==> r.title == existing.title,
        req.slug matches Some(v) ==> r.slug == v,
        req.slug is None ==> r.slug == existing.slug,
        req.summary matches Some(v) ==> r.summary == Some(v),
        req.summary is None ==> r.summary == existing.summary,
        req.content matches Some(v) ==> r.content == v,
        req.content is None ==> r.content == existing.content,
        req.category matches Some(k) ==> r.category@ == k.name(),
        req.category is None ==> r.category == existing.category,
        req.featured_image_url matches Some(v) ==> r.featured_image_url == Some(v),
        req.featured_image_url is None ==> r.featured_image_url == existing.featured_image_url,
        req.status matches Some(k) ==> r.status@ == k.name(),
        req.status is None ==> r.status == existing.status,
        req.is_featured matches Some(v) ==> r.is_featured == v,
        req.is_featured is None ==> r.is_featured == existing.is_featured,
        req.tags matches Some(ts) ==> (r.tags matches Some(t) && t@ == join_with(views(ts@), ","@)),
        req.tags is None ==> r.tags == existing.tags,
        r.id == existing.id,
        r.author_id == existing.author_id,
        r.view_count == existing.view_count,
        r.created_at == existing.created_at,
        r.updated_at == now,
{
}


/// A new post keeps what the request gives and fills the rest with fixed
/// defaults: it is not featured unless asked, has no views, is filed as news
/// without a category, and is a draft without a publication date unless it is
/// published at once, and then it is published and dated at its creation.
pub proof fn law_new_blog_post_defaults(
    p: BlogPost,
    req: CreateBlogPostRequest,
    author_id: Seq<char>,
    slug: Seq<char>,
    id: String,
    now: String,
)
    requires
        created_blog_post(p, req, author_id, slug, id, now),
    ensures
        p.id == id,
        p.title == req.title,
        p.slug@ == slug,
        p.content == req.content,
        p.summary == req.summary,
        p.author_id@ == author_id,
        req.is_featured is None ==> !p.is_featured,
        req.is_featured matches Some(b) ==> p.is_featured == b,
        p.view_count == 0,
        req.category is None ==> p.category@ == "news"@,
        req.category matches Some(c) ==> p.category@ == c.name(),
        req.tags is None ==> (p.tags matches Some(t) && t@.len() == 0),
        req.tags matches Some(ts) ==> (p.tags matches Some(t) && t@ == join_with(views(ts@), ","@)),
        req.publish_immediately != Some(true) ==> p.status@ == "draft"@ && p.publish_date is None,
        req.publish_immediately == Some(true) ==> p.status@ == "published"@ && p.publish_date
            == Some(now),
        p.featured_image_url == req.featured_image_url,
        p.created_at == now,
        p.updated_at == now,
{
}


/// Publishing a post makes it published and dated now, and changes nothing else but
/// the time of change.
pub proof fn law_publishing_blog_post(r: BlogPost, existing: BlogPost, now: String)
    requires
        published_blog_post(r, existing, now),
    ensures
        r.id == existing.id,
        r.title == existing.title,
        r.slug == existing.slug,
        r.summary == existing.summary,
        r.content == existing.content,
        r.category == existing.category,
        r.tags == existing.tags,
        r.featured_image_url == existing.featured_image_url,
        r.author_id == existing.author_id,
        r.status@ == "published"@,
        r.publish_date == Some(now),
        r.is_featured == existing.is_featured,
        r.view_count == existing.view_count,
        r.created_at == existing.created_at,
        r.updated_at == now,
{
}


/// Archiving a post makes it archived, keeps its publication date and everything
/// else, and stamps the time of change.
pub proof fn law_archiving_blog_post(r: BlogPost, existing: BlogPost, now: String)
    requires
        archived_blog_post(r, existing, now),
    ensures
        r.id == existing.id,
        r.title == existing.title,
        r.slug == existing.slug,
        r.summary == existing.summary,
        r.content == existing.content,
        r.category == existing.category,
        r.tags == existing.tags,
        r.featured_image_url == existing.featured_image_url,
        r.author_id == existing.author_id,
        r.status@ == "archived"@,
        r.publish_date == existing.publish_date,
        r.is_featured == existing.is_featured,
        r.view_count == existing.view_count,
        r.created_at == existing.created_at,
        r.updated_at == now,
{
}


/// A post is shown in full as it is stored: every stored field is passed on
/// unchanged, the kinds are the ones their stored names read as, and the tags
/// are the trimmed comma-separated pieces of the stored tag text.
pub proof fn law_post_shown_as_stored(r: BlogPostResponse, b: BlogPost)
    requires
        shows_post(r, b),
    ensures
        r.id == b.id,
        r.title == b.title,
        r.slug == b.slug,
        r.summary == b.summary,
        r.content == b.content,
        forall|k: BlogCategory| b.category@ == k.name() ==> r.category == k,
        forall|k: BlogPostStatus| b.status@ == k.name() ==> r.status == k,
        b.tags is None ==> r.tags@.len() == 0,
        b.tags matches Some(t) ==> (all_ascii(t@) ==> views(r.tags@) == split_on(t@, ',').map_values(
            |p: Seq<char>| ascii_trim(p),
        )),
        r.featured_image_url == b.featured_image_url,
        r.author_id == b.author_id,
        r.publish_date == b.publish_date,
        r.is_featured == b.is_featured,
        r.view_count == b.view_count,
        r.created_at == b.created_at,
        r.updated_at == b.updated_at,
{
    if b.tags is None {
        assert(views(r.tags@).len() == 0);
    }
}

/// A post is listed as it is stored, without its content: every listed field
/// is passed on unchanged and the category is the one its stored name reads as.
pub proof fn law_post_listed_as_stored(r: BlogPostSummaryResponse, b: BlogPost)
    requires
        summarizes_post(r, b),
    ensures
        r.id == b.id,
        r.title == b.title,
        r.slug == b.slug,
        r.summary == b.summary,
        forall|k: BlogCategory| b.category@ == k.name() ==> r.category == k,
        b.tags is None ==> r.tags@.len() == 0,
        r.featured_image_url == b.featured_image_url,
        r.author_id == b.author_id,
        r.publish_date == b.publish_date,
        r.is_featured == b.is_featured,
        r.view_count == b.view_count,
{
    if b.tags is None {
        assert(views(r.tags@).len() == 0);
    }
}

/// A post's slug is the one asked for, or, when that is taken, the one asked
/// for followed by a dash and the first eight characters of the post's
/// identifier; a request without a slug asks for the slug of its title.
pub proof fn law_stored_slug(req: CreateBlogPostRequest, taken: bool, id: Seq<char>)
    ensures
        !taken ==> final_slug(requested_slug(req), taken, id) == requested_slug(req),
        taken ==> final_slug(requested_slug(req), taken, id) == requested_slug(req) + seq!['-'] + id.take(8),
        req.slug matches Some(s) ==> requested_slug(req) == s@,
        req.slug is None ==> requested_slug(req) == slug_of(req.title@),
{
    reveal_strlit("-");
    assert("-"@ =~= seq!['-']);
}


/// Every blog post status is stored under its snake-case name, and every stored
/// name reads back as the kind it names.
pub proof fn law_blog_post_status_names()
    ensures
        BlogPostStatus::Draft.name() == "draft"@,
        BlogPostStatus::Published.name() == "published"@,
        BlogPostStatus::Archived.name() == "archived"@,
        forall|k: BlogPostStatus| #[trigger] BlogPostStatus::from_lowercase(k.name()) == k,
{
    BlogPostStatus::Draft.lemma_name_parses_back();
    BlogPostStatus::Published.lemma_name_parses_back();
    BlogPostStatus::Archived.lemma_name_parses_back();
    reveal_strlit("draft");
    reveal_strlit("published");
    reveal_strlit("archived");
    assert forall|k: BlogPostStatus| #[trigger] BlogPostStatus::from_lowercase(k.name()) == k by {
        k.lemma_name_parses_back();
    }
}

/// Every blog category is stored under its snake-case name, and every stored
/// name reads back as the kind it names.
pub proof fn law_blog_category_names()
    ensures
        BlogCategory::News.name() == "news"@,
        BlogCategory::Training.name() == "training"@,
        BlogCategory::Nutrition.name() == "nutrition"@,
        BlogCategory::Events.name() == "events"@,
        BlogCategory::Tips.name() == "tips"@,
        BlogCategory::Stories.name() == "stories"@,
        BlogCategory::Announcements.name() == "announcements"@,
        BlogCategory::Other.name() == "other"@,
        forall|k: BlogCategory| #[trigger] BlogCategory::from_lowercase(k.name()) == k,
{
    BlogCategory::News.lemma_name_parses_back();
    BlogCategory::Training.lemma_name_parses_back();
    BlogCategory::Nutrition.lemma_name_parses_back();
    BlogCategory::Events.lemma_name_parses_back();
    BlogCategory::Tips.lemma_name_parses_back();
    BlogCategory::Stories.lemma_name_parses_back();
    BlogCategory::Announcements.lemma_name_parses_back();
    BlogCategory::Other.lemma_name_parses_back();
    reveal_strlit("news");
    reveal_strlit("training");
    reveal_strlit("nutrition");
    reveal_strlit("events");
    reveal_strlit("tips");
    reveal_strlit("stories");
    reveal_strlit("announcements");
    reveal_strlit("other");
    assert forall|k: BlogCategory| #[trigger] BlogCategory::from_lowercase(k.name()) == k by {
        k.lemma_name_parses_back();
    }
}

} // verus!

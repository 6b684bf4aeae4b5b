//! What the client shows: the menu, the list of posts and each post, as plain
//! values that a user interface lays out, and the request that its entry form
//! submits.

use vstd::prelude::*;
use vstd::string::StringExecFns;
use crate::markup::{block_views, render_body, BodyBlock, BodyBlockView, PostBody};
use crate::post::{Post, PostEntry, PostEntryView, PostView};

verus! {

/// The address under which the server offers the stored images.
pub open spec fn image_base() -> Seq<char> {
    "http://127.0.0.1:8081/images/"@
}

/// The name under which every post is signed.
pub open spec fn author_name() -> Seq<char> {
    "Alexandre"@
}

/// The menu bar: one button that opens or leaves the entry form, and the
/// navigation entries.
#[derive(Debug, Clone, PartialEq)]
pub struct MenuBar {
    /// The text on the button.
    pub button_label: String,
    /// Whether the entry form is open once the button has been pressed.
    pub toggled: bool,
    /// The navigation entries, in the order in which they are shown.
    pub entries: Vec<String>,
}

/// The mathematical value of a [`MenuBar`].
pub struct MenuBarView {
    pub button_label: Seq<char>,
    pub toggled: bool,
    pub entries: Seq<Seq<char>>,
}

/// The characters of each string of a sequence.
pub open spec fn texts(strings: Seq<String>) -> Seq<Seq<char>> {
    strings.map_values(|s: String| s@)
}

impl View for MenuBar {
    type V = MenuBarView;

    open spec fn view(&self) -> MenuBarView {
        MenuBarView {
            button_label: self.button_label@,
            toggled: self.toggled,
            entries: texts(self.entries@),
        }
    }
}

/// The menu while the entry form is open (`toggle_post_form`) or closed. The
/// button offers the way back from the form, or the way to it, and pressing
/// it flips the state.
pub open spec fn menu_of(toggle_post_form: bool) -> MenuBarView {
    MenuBarView {
        button_label: if toggle_post_form {
            "< Back"@
        } else {
            "+ Create Post"@
        },
        toggled: !toggle_post_form,
        entries: seq!["Home"@, "Popular"@, "Categories"@, "About me"@],
    }
}

/// Lays out the menu.
#[allow(non_snake_case)]
pub fn MenuComponent(toggle_post_form: bool) -> (menu: MenuBar)
    ensures
        menu@ == menu_of(toggle_post_form),
{
    let label = if toggle_post_form {
        "< Back"
    } else {
        "+ Create Post"
    };
    let mut entries: Vec<String> = Vec::new();
    entries.push("Home".to_owned());
    entries.push("Popular".to_owned());
    entries.push("Categories".to_owned());
    entries.push("About me".to_owned());
    assert(texts(entries@) == menu_of(toggle_post_form).entries);
    MenuBar { button_label: label.to_owned(), toggled: !toggle_post_form, entries }
}

/// One post as it is shown.
#[derive(Debug, Clone, PartialEq)]
pub struct PostCard {
    pub title: String,
    /// The address of the attached image, if the post has one.
    pub image_src: Option<String>,
    pub body: Vec<BodyBlock>,
    pub author: String,
    pub created_time: String,
}

/// The mathematical value of a [`PostCard`].
pub struct PostCardView {
    pub title: Seq<char>,
    pub image_src: Option<Seq<char>>,
    pub body: Seq<BodyBlockView>,
    pub author: Seq<char>,
    pub created_time: Seq<char>,
}

impl View for PostCard {
    type V = PostCardView;

    open spec fn view(&self) -> PostCardView {
        PostCardView {
            title: self.title@,
            image_src: crate::post::text_of(self.image_src),
            body: block_views(self.body@),
            author: self.author@,
            created_time: self.created_time@,
        }
    }
}

/// The card that shows `post`: its title and date unchanged, its body
/// rendered line by line, and its image addressed below the image directory.
pub open spec fn card_of(post: PostView) -> PostCardView {
    PostCardView {
        title: post.title,
        image_src: match post.image_file {
            Some(name) => Some(image_base() + name),
            None => None,
        },
        body: render_body(post.post_body),
        author: author_name(),
        created_time: post.created_time,
    }
}

/// Lays out one post.
#[allow(non_snake_case)]
pub fn PostComponent(post: Post) -> (card: PostCard)
    ensures
        card@ == card_of(post@),
{
    let image_src = match post.image_file {
        Some(name) => Some("http://127.0.0.1:8081/images/".to_owned().concat(name.as_str())),
        None => None,
    };
    PostCard {
        title: post.title,
        image_src,
        body: PostBody(post.post_body),
        author: "Alexandre".to_owned(),
        created_time: post.created_time,
    }
}

/// Whether `cards` show `posts`: one card for each post, in the same order.
pub open spec fn shows(cards: Seq<PostCard>, posts: Seq<Post>) -> bool {
    &&& cards.len() == posts.len()
    &&& forall|i: int| 0 <= i < posts.len() ==> (#[trigger] cards[i])@ == card_of(posts[i]@)
}

/// Lays out the posts, one card for each, in the order given.
#[allow(non_snake_case)]
pub fn PostsComponent(posts: &Vec<Post>) -> (cards: Vec<PostCard>)
    ensures
        shows(cards@, posts@),
{
    let mut cards: Vec<PostCard> = Vec::new();
    let mut i: usize = 0;
    while i < posts.len()
        invariant
            i <= posts@.len(),
            cards@.len() == i,
            forall|k: int| 0 <= k < i ==> (#[trigger] cards@[k])@ == card_of(posts@[k]@),
        decreases posts@.len() - i,
    {
        let card = PostComponent(posts[i].duplicate());
        cards.push(card);
        i = i + 1;
    }
    cards
}

/// What is shown below the menu.
#[derive(Debug, Clone, PartialEq)]
pub enum Screen {
    /// The form in which a post is entered.
    EntryForm,
    /// The posts.
    Posts(Vec<PostCard>),
}

/// Lays out the page: the menu, and below it the entry form while it is
/// open (`toggle_post_form`) and the posts while it is not.
#[allow(non_snake_case)]
pub fn Main(toggle_post_form: bool, posts: &Vec<Post>) -> (page: (MenuBar, Screen))
    ensures
        page.0@ == menu_of(toggle_post_form),
        match page.1 {
            Screen::EntryForm => toggle_post_form,
            Screen::Posts(cards) => !toggle_post_form && shows(cards@, posts@),
        },
{
    let menu = MenuComponent(toggle_post_form);
    let screen = if toggle_post_form {
        Screen::EntryForm
    } else {
        Screen::Posts(PostsComponent(posts))
    };
    (menu, screen)
}

/// What the entry form submits for the fields as they stand. An image that
/// was never chosen, and so has no bytes, is left out.
pub open spec fn form_entry_of(
    post_title: Seq<char>,
    post_body: Seq<char>,
    image_data: Seq<u8>,
) -> PostEntryView {
    PostEntryView {
        title: post_title,
        post_body,
        image_data: if image_data.len() > 0 {
            Some(image_data)
        } else {
            None
        },
    }
}

/// Builds the request that the entry form submits.
pub fn form_entry(post_title: String, post_body: String, image_data: Vec<u8>) -> (entry: PostEntry)
    ensures
        entry@ == form_entry_of(post_title@, post_body@, image_data@),
{
    let image = if image_data.len() > 0 {
        Some(image_data)
    } else {
        None
    };
    PostEntry { title: post_title, post_body, image_data: image }
}

} // verus!

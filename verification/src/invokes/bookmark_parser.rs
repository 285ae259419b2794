//! Bookmarks out of a browser's exported bookmark file.
//!
//! The file is Netscape bookmark markup: nested `<DL>` lists whose `<DT>`
//! entries hold either a folder (an `<H3>` heading and a nested list) or a
//! link (an `<A>`). The folder marked as the personal toolbar is the root.
//! Each folder directly under the root becomes one group holding every link
//! below it, however deeply nested; links directly under the root form a
//! group of their own, named after the root, which comes first.

use crate::dom::{
    attribute, child_nodes, descend, element_path, element_root, element_tree, find_from,
    first_descendant, first_named, html_page, inner_html, is_named, is_tag_name,
    lemma_descend_child, lemma_descend_concat, lemma_find_from_found, page_match, parent_element,
    parse_document, parsed_page, select_in_document, stands_below, tag_name, DomNode, Page,
};
use crate::invokes::bookmark_laws::no_group_is_empty;
use crate::text::{is_blank, trim, trimmed};
use crate::web::{address_host, host_text, parsed_host};
use vstd::prelude::*;

verus! {

/// What a bookmark is: a title to show and the address as the file gave it.
pub struct ItemView {
    pub title: Seq<char>,
    pub url: Seq<char>,
}

/// What a group is: a name and its bookmarks in document order.
pub struct GroupView {
    pub name: Seq<char>,
    pub items: Seq<ItemView>,
}

/// A single bookmark. Its title is never empty.
#[derive(Debug)]
pub struct BookmarkItem {
    title: String,
    url: String,
}

/// A named group of bookmarks. It is never empty.
#[derive(Debug)]
pub struct BookmarkGroup {
    name: String,
    items: Vec<BookmarkItem>,
}

impl View for BookmarkItem {
    type V = ItemView;

    closed spec fn view(&self) -> ItemView {
        ItemView { title: self.title@, url: self.url@ }
    }
}

impl View for BookmarkGroup {
    type V = GroupView;

    closed spec fn view(&self) -> GroupView {
        GroupView { name: self.name@, items: items_view(self.items@) }
    }
}

/// The bookmarks of a vector, one view for each.
pub open spec fn items_view(items: Seq<BookmarkItem>) -> Seq<ItemView> {
    items.map_values(|item: BookmarkItem| item@)
}

/// The groups of a vector, one view for each.
pub open spec fn groups_view(groups: Seq<BookmarkGroup>) -> Seq<GroupView> {
    groups.map_values(|group: BookmarkGroup| group@)
}

impl Clone for BookmarkItem {
    fn clone(&self) -> (r: Self)
        ensures
            r@ == self@,
    {
        proof {
            use_type_invariant(self);
        }
        BookmarkItem { title: self.title.clone(), url: self.url.clone() }
    }
}

impl Clone for BookmarkGroup {
    fn clone(&self) -> (r: Self)
        ensures
            r@ == self@,
    {
        proof {
            use_type_invariant(self);
        }
        let mut items: Vec<BookmarkItem> = Vec::new();
        let mut i: usize = 0;
        while i < self.items.len()
            invariant
                i <= self.items.len(),
                items_view(items@) == items_view(self.items@.take(i as int)),
            decreases self.items.len() - i,
        {
            let ghost copied = items_view(items@);
            let item = self.items[i].clone();
            items.push(item);
            assert(items_view(items@) =~= copied.push(item@));
            assert(self.items@.take(i + 1) =~= self.items@.take(i as int).push(self.items@[i as int]));
            assert(items_view(self.items@.take(i + 1)) =~= copied.push(self.items@[i as int]@));
            i += 1;
        }
        assert(self.items@.take(i as int) =~= self.items@);
        BookmarkGroup { name: self.name.clone(), items }
    }
}

impl BookmarkItem {
    #[verifier::type_invariant]
    spec fn well_formed(self) -> bool {
        self.title@.len() > 0
    }

    /// The title to show.
    pub fn title(&self) -> (r: &str)
        ensures
            r@ == self@.title,
            r@.len() > 0,
    {
        proof {
            use_type_invariant(self);
        }
        self.title.as_str()
    }

    /// The address, exactly as the `href` attribute held it.
    pub fn url(&self) -> (r: &str)
        ensures
            r@ == self@.url,
    {
        self.url.as_str()
    }
}

impl BookmarkGroup {
    #[verifier::type_invariant]
    spec fn well_formed(self) -> bool {
        self.items@.len() > 0
    }

    /// The folder's title, or the toolbar's for the group of its direct links.
    pub fn name(&self) -> (r: &str)
        ensures
            r@ == self@.name,
    {
        self.name.as_str()
    }

    /// The bookmarks, in document order. There is at least one.
    pub fn items(&self) -> (r: &Vec<BookmarkItem>)
        ensures
            items_view(r@) == self@.items,
            r@.len() > 0,
    {
        proof {
            use_type_invariant(self);
        }
        &self.items
    }
}

/// The selector that finds the heading of the personal-toolbar folder.
pub open spec fn toolbar_selector() -> Seq<char> {
    "h3[PERSONAL_TOOLBAR_FOLDER=\"true\"]"@
}

/// The title when the link has no text of its own: the host of its address,
/// or `Untitled` where the address is no absolute URL or names no host.
pub open spec fn fallback_title(href: Seq<char>) -> Seq<char> {
    match parsed_host(href) {
        Some(host) => host_title(host),
        None => host_title(None),
    }
}

/// The title that a host gives: the host itself, or `Untitled` where there
/// is none or it is empty.
pub open spec fn host_title(host: Option<Seq<char>>) -> Seq<char> {
    match host {
        Some(name) => if name.len() > 0 {
            name
        } else {
            "Untitled"@
        },
        None => "Untitled"@,
    }
}

/// The title of a link: its text without surrounding white space, or the
/// fallback where nothing is left.
pub open spec fn link_title(text: Seq<char>, href: Seq<char>) -> Seq<char> {
    if trimmed(text).len() > 0 {
        trimmed(text)
    } else {
        fallback_title(href)
    }
}

/// The bookmark that a list entry holds as a link: its first `<a>` below,
/// provided that has an `href` which is not blank.
pub open spec fn entry_link(entry: DomNode) -> Option<ItemView> {
    match first_named(entry, "a"@) {
        Some(a) => if a.attrs.contains_key("href"@) && !is_blank(a.attrs["href"@]) {
            Some(
                ItemView { title: link_title(a.inner_html, a.attrs["href"@]), url: a.attrs["href"@] },
            )
        } else {
            None
        },
        None => None,
    }
}

/// A list entry is a folder when a heading stands anywhere below it.
pub open spec fn is_folder(entry: DomNode) -> bool {
    find_from(entry, 0, "h3"@) is Some
}

/// Every bookmark that one child of a list contributes: nothing unless it is
/// a `<dt>`; for a folder, all bookmarks of its nested list, at any depth; for
/// a link, that link.
pub open spec fn entry_links(entry: DomNode) -> Seq<ItemView>
    decreases entry, 0nat,
    via entry_links_decreases
{
    if !is_named(entry, "dt"@) {
        Seq::empty()
    } else if is_folder(entry) {
        match find_from(entry, 0, "dl"@) {
            Some(p) => list_links(descend(entry, p), 0),
            None => Seq::empty(),
        }
    } else {
        match entry_link(entry) {
            Some(item) => seq![item],
            None => Seq::empty(),
        }
    }
}

/// The bookmarks of the children `i..` of a list container, flattened, in
/// document order.
pub open spec fn list_links(list: DomNode, i: int) -> Seq<ItemView>
    decreases list, list.children.len() - i,
    via list_links_decreases
{
    if i < 0 || i >= list.children.len() {
        Seq::empty()
    } else {
        entry_links(list.children[i]) + list_links(list, i + 1)
    }
}

#[via_fn]
proof fn entry_links_decreases(entry: DomNode) {
    lemma_find_from_found(entry, 0, "dl"@);
}

#[via_fn]
proof fn list_links_decreases(list: DomNode, i: int) {
}

/// The group that one child of the toolbar's list gives: a `<dt>` with a
/// heading becomes a group named by the heading, holding every bookmark of
/// its nested list, unless there is none.
pub open spec fn entry_group(entry: DomNode) -> Option<GroupView> {
    if is_named(entry, "dt"@) {
        match first_named(entry, "h3"@) {
            Some(heading) => {
                let items = match first_named(entry, "dl"@) {
                    Some(list) => list_links(list, 0),
                    None => Seq::empty(),
                };
                if items.len() > 0 {
                    Some(GroupView { name: trimmed(heading.inner_html), items })
                } else {
                    None
                }
            },
            None => None,
        }
    } else {
        None
    }
}

/// The bookmark that one child of the toolbar's list gives directly: a
/// `<dt>` that is no folder and holds a link.
pub open spec fn entry_direct(entry: DomNode) -> Option<ItemView> {
    if is_named(entry, "dt"@) && !is_folder(entry) {
        entry_link(entry)
    } else {
        None
    }
}

/// The folder groups of the children `i..` of the toolbar's list, in order.
pub open spec fn folder_groups(list: DomNode, i: int) -> Seq<GroupView>
    decreases list.children.len() - i,
{
    if i < 0 || i >= list.children.len() {
        Seq::empty()
    } else {
        match entry_group(list.children[i]) {
            Some(group) => seq![group] + folder_groups(list, i + 1),
            None => folder_groups(list, i + 1),
        }
    }
}

/// The direct bookmarks of the children `i..` of the toolbar's list, in order.
pub open spec fn direct_links(list: DomNode, i: int) -> Seq<ItemView>
    decreases list.children.len() - i,
{
    if i < 0 || i >= list.children.len() {
        Seq::empty()
    } else {
        match entry_direct(list.children[i]) {
            Some(item) => seq![item] + direct_links(list, i + 1),
            None => direct_links(list, i + 1),
        }
    }
}

/// The groups of a toolbar with the given title and list: the folder groups
/// in order, and before them, if the toolbar has direct bookmarks, one group
/// named after the toolbar that holds them.
pub open spec fn toolbar_groups(title: Seq<char>, list: DomNode) -> Seq<GroupView> {
    if direct_links(list, 0).len() > 0 {
        seq![GroupView { name: title, items: direct_links(list, 0) }] + folder_groups(list, 0)
    } else {
        folder_groups(list, 0)
    }
}

/// The toolbar of a document: its title and its list. The toolbar heading is
/// the first element the toolbar selector matches, the title is the heading's
/// content without surrounding white space, and the list is the first `<dl>`
/// below the element that encloses the heading. A document without such a
/// heading, enclosing element or list has no toolbar.
pub open spec fn toolbar_of(page: Page) -> Option<(Seq<char>, DomNode)> {
    match page_match(page, toolbar_selector()) {
        Some(path) => {
            let heading = descend(page.tree, path);
            let enclosing = descend(page.tree, path.drop_last());
            if enclosing.name is Some {
                match first_named(enclosing, "dl"@) {
                    Some(list) => Some((trimmed(heading.inner_html), list)),
                    None => None,
                }
            } else {
                None
            }
        },
        None => None,
    }
}

/// The groups of a whole document: those of its toolbar, and none where it
/// has no toolbar.
pub open spec fn document_groups(page: Page) -> Seq<GroupView> {
    match toolbar_of(page) {
        Some((title, list)) => toolbar_groups(title, list),
        None => Seq::empty(),
    }
}

proof fn lemma_tag_names()
    ensures
        is_tag_name("a"@),
        is_tag_name("h3"@),
        is_tag_name("dl"@),
{
    reveal_strlit("a");
    reveal_strlit("h3");
    reveal_strlit("dl");
}

/// The node of a handle found below another is the node at the end of the
/// relative path.
proof fn lemma_below(d: scraper::ElementRef, e: scraper::ElementRef, rel: Seq<int>)
    requires
        stands_below(d, e, rel),
    ensures
        element_tree(d) == descend(element_tree(e), rel),
{
    lemma_descend_concat(element_root(e), element_path(e), rel);
}

/// The title for a link without text of its own, given the host of its
/// address where it names one.
pub fn title_from_host(host: Option<String>) -> (title: String)
    ensures
        title@ == host_title(host_text(host)),
        title@.len() > 0,
{
    proof {
        reveal_strlit("Untitled");
    }
    match host {
        Some(name) => {
            if name.as_str().is_empty() {
                "Untitled".to_owned()
            } else {
                name
            }
        },
        None => "Untitled".to_owned(),
    }
}

fn title_for(text: &str, href: &str) -> (title: String)
    ensures
        title@ == link_title(text@, href@),
        title@.len() > 0,
{
    let shown = trim(text);
    if !shown.is_empty() {
        return shown.to_owned();
    }
    match address_host(href) {
        Some(host) => title_from_host(host),
        None => title_from_host(None),
    }
}

fn link_of(entry: scraper::ElementRef) -> (r: Option<BookmarkItem>)
    ensures
        match r {
            Some(item) => entry_link(element_tree(entry)) == Some(item@),
            None => entry_link(element_tree(entry)) is None,
        },
{
    proof {
        lemma_tag_names();
    }
    match first_descendant(entry, "a") {
        Some(a) => {
            proof {
                lemma_below(a, entry, find_from(element_tree(entry), 0, "a"@).unwrap());
            }
            match attribute(a, "href") {
                Some(href) => {
                    if trim(href.as_str()).is_empty() {
                        None
                    } else {
                        let text = inner_html(a);
                        let title = title_for(text.as_str(), href.as_str());
                        Some(BookmarkItem { title, url: href })
                    }
                },
                None => None,
            }
        },
        None => None,
    }
}

fn is_list_entry(e: scraper::ElementRef) -> (b: bool)
    ensures
        b == is_named(element_tree(e), "dt"@),
{
    tag_name(e) == "dt".to_owned()
}

/// Appends to `items` every bookmark found in the list container
/// `dl_element`: the links of its entries, and for an entry that is a folder
/// the bookmarks of the folder's own list, to any depth, all in document
/// order. Nothing already in `items` changes.
pub fn extract_links_recursive(dl_element: scraper::ElementRef, items: &mut Vec<BookmarkItem>)
    ensures
        items_view(final(items)@) == items_view(old(items)@) + list_links(
            element_tree(dl_element),
            0,
        ),
    decreases element_tree(dl_element),
{
    let ghost list = element_tree(dl_element);
    let ghost before = items_view(items@);
    let children = child_nodes(dl_element);
    let mut i: usize = 0;
    while i < children.len()
        invariant
            i <= children.len(),
            list == element_tree(dl_element),
            children@.len() == list.children.len(),
            forall|k: int|
                0 <= k < children@.len() ==> match #[trigger] children@[k] {
                    Some(c) => stands_below(c, dl_element, seq![k]) && element_tree(c).name
                        is Some,
                    None => element_tree(dl_element).children[k].name is None,
                },
            items_view(items@) + list_links(list, i as int) == before + list_links(list, 0),
        decreases children.len() - i,
    {
        let ghost so_far = items_view(items@);
        let ghost child = list.children[i as int];
        match children[i] {
            Some(entry) => {
                proof {
                    lemma_tag_names();
                    lemma_below(entry, dl_element, seq![i as int]);
                    lemma_descend_child(list, i as int);
                    assert(element_tree(entry) == child);
                }
                if is_list_entry(entry) {
                    if first_descendant(entry, "h3").is_some() {
                        match first_descendant(entry, "dl") {
                            Some(sub) => {
                                proof {
                                    let rel = find_from(child, 0, "dl"@).unwrap();
                                    lemma_below(sub, entry, rel);
                                    lemma_find_from_found(child, 0, "dl"@);
                                    assert(decreases_to!(list => element_tree(sub)));
                                }
                                extract_links_recursive(sub, items);
                            },
                            None => {},
                        }
                    } else {
                        match link_of(entry) {
                            Some(item) => {
                                items.push(item);
                                assert(items_view(items@) =~= so_far + seq![item@]);
                            },
                            None => {},
                        }
                    }
                }
            },
            None => {},
        }
        proof {
            assert(items_view(items@) =~= so_far + entry_links(child));
            assert((so_far + entry_links(child)) + list_links(list, i + 1) =~= so_far + (
            entry_links(child) + list_links(list, i + 1)));
        }
        i += 1;
    }
    proof {
        assert(items_view(items@) + Seq::<ItemView>::empty() =~= items_view(items@));
    }
}

/// The groups of a toolbar: `heading` is the toolbar's own heading, `list` the
/// list container that holds the toolbar's entries.
fn collect_groups(heading: scraper::ElementRef, list: scraper::ElementRef) -> (groups: Vec<
    BookmarkGroup,
>)
    ensures
        groups_view(groups@) == toolbar_groups(
            trimmed(element_tree(heading).inner_html),
            element_tree(list),
        ),
{
    let ghost tree = element_tree(list);
    let mut groups: Vec<BookmarkGroup> = Vec::new();
    let mut top_level_items: Vec<BookmarkItem> = Vec::new();
    let children = child_nodes(list);
    let mut i: usize = 0;
    while i < children.len()
        invariant
            i <= children.len(),
            tree == element_tree(list),
            children@.len() == tree.children.len(),
            forall|k: int|
                0 <= k < children@.len() ==> match #[trigger] children@[k] {
                    Some(c) => stands_below(c, list, seq![k]) && element_tree(c).name is Some,
                    None => element_tree(list).children[k].name is None,
                },
            groups_view(groups@) + folder_groups(tree, i as int) == folder_groups(tree, 0),
            items_view(top_level_items@) + direct_links(tree, i as int) == direct_links(tree, 0),
        decreases children.len() - i,
    {
        let ghost groups_so_far = groups_view(groups@);
        let ghost items_so_far = items_view(top_level_items@);
        let ghost child = tree.children[i as int];
        match children[i] {
            Some(entry) => {
                proof {
                    lemma_tag_names();
                    lemma_below(entry, list, seq![i as int]);
                    lemma_descend_child(tree, i as int);
                    assert(element_tree(entry) == child);
                }
                if is_list_entry(entry) {
                    match first_descendant(entry, "h3") {
                        Some(h3) => {
                            proof {
                                lemma_below(h3, entry, find_from(child, 0, "h3"@).unwrap());
                            }
                            let group_name = trim(inner_html(h3).as_str()).to_owned();
                            let mut items_in_group: Vec<BookmarkItem> = Vec::new();
                            match first_descendant(entry, "dl") {
                                Some(group_content_dl) => {
                                    proof {
                                        lemma_below(
                                            group_content_dl,
                                            entry,
                                            find_from(child, 0, "dl"@).unwrap(),
                                        );
                                    }
                                    extract_links_recursive(group_content_dl, &mut items_in_group);
                                    assert(items_view(items_in_group@) =~= list_links(
                                        element_tree(group_content_dl),
                                        0,
                                    ));
                                },
                                None => {
                                    assert(items_view(items_in_group@) =~= Seq::<ItemView>::empty());
                                },
                            }
                            if items_in_group.len() > 0 {
                                let group = BookmarkGroup { name: group_name, items: items_in_group };
                                groups.push(group);
                                assert(groups_view(groups@) =~= groups_so_far + seq![group@]);
                            }
                        },
                        None => {
                            match link_of(entry) {
                                Some(item) => {
                                    top_level_items.push(item);
                                    assert(items_view(top_level_items@) =~= items_so_far
                                        + seq![item@]);
                                },
                                None => {},
                            }
                        },
                    }
                }
            },
            None => {},
        }
        proof {
            let next_groups = folder_groups(tree, i + 1);
            let next_items = direct_links(tree, i + 1);
            match entry_group(child) {
                Some(group) => {
                    assert((groups_so_far + seq![group]) + next_groups =~= groups_so_far + (
                    seq![group] + next_groups));
                },
                None => {},
            }
            match entry_direct(child) {
                Some(item) => {
                    assert((items_so_far + seq![item]) + next_items =~= items_so_far + (seq![item]
                        + next_items));
                },
                None => {},
            }
        }
        i += 1;
    }
    proof {
        assert(groups_view(groups@) + Seq::<GroupView>::empty() =~= groups_view(groups@));
        assert(items_view(top_level_items@) + Seq::<ItemView>::empty() =~= items_view(
            top_level_items@,
        ));
    }
    if top_level_items.len() > 0 {
        let ghost folders = groups_view(groups@);
        let name = trim(inner_html(heading).as_str()).to_owned();
        let group = BookmarkGroup { name, items: top_level_items };
        groups.insert(0, group);
        assert(groups_view(groups@) =~= seq![group@] + folders);
    }
    groups
}

/// The heading of the personal-toolbar folder and the list that holds the
/// toolbar's entries: the first `<dl>` below the element that encloses the
/// heading.
fn locate_toolbar<'a>(doc: &'a scraper::Html) -> (r: Option<
    (scraper::ElementRef<'a>, scraper::ElementRef<'a>),
>)
    ensures
        match r {
            Some((heading, list)) => toolbar_of(html_page(*doc)) == Some(
                (trimmed(element_tree(heading).inner_html), element_tree(list)),
            ),
            None => toolbar_of(html_page(*doc)) is None,
        },
{
    proof {
        lemma_tag_names();
    }
    match select_in_document(doc, "h3[PERSONAL_TOOLBAR_FOLDER=\"true\"]") {
        Some(toolbar_h3) => {
            let ghost path = element_path(toolbar_h3);
            match parent_element(toolbar_h3) {
                Some(toolbar_dt) => {
                    proof {
                        assert(path.drop_last() =~= element_path(toolbar_dt));
                    }
                    match first_descendant(toolbar_dt, "dl") {
                        Some(main_content_dl) => {
                            proof {
                                lemma_below(
                                    main_content_dl,
                                    toolbar_dt,
                                    find_from(element_tree(toolbar_dt), 0, "dl"@).unwrap(),
                                );
                            }
                            Some((toolbar_h3, main_content_dl))
                        },
                        None => None,
                    }
                },
                None => None,
            }
        },
        None => None,
    }
}

/// The bookmark groups of a parsed document: the folders directly under the
/// personal-toolbar folder, each with all bookmarks below it, preceded by the
/// group of the toolbar's own direct bookmarks if it has any. A document
/// without a toolbar folder gives no groups.
pub fn extract_groups(doc: &scraper::Html) -> (groups: Vec<BookmarkGroup>)
    ensures
        groups_view(groups@) == document_groups(html_page(*doc)),
        forall|i: int| 0 <= i < groups@.len() ==> (#[trigger] groups@[i])@.items.len() > 0,
        page_match(html_page(*doc), toolbar_selector()) is None ==> groups@.len() == 0,
{
    let groups = match locate_toolbar(doc) {
        Some((toolbar_h3, main_content_dl)) => collect_groups(toolbar_h3, main_content_dl),
        None => Vec::new(),
    };
    proof {
        no_group_is_empty(html_page(*doc));
        assert(groups_view(groups@) == document_groups(html_page(*doc)));
        assert forall|i: int| 0 <= i < groups@.len() implies (#[trigger] groups@[i])@.items.len()
            > 0 by {
            assert(groups_view(groups@)[i] == groups@[i]@);
        }
        assert(groups_view(groups@).len() == groups@.len());
    }
    groups
}

/// Reads the text of an exported bookmark file and returns its bookmark
/// groups. Any text is accepted: markup that is malformed or holds no toolbar
/// folder gives fewer groups or none, never a failure.
pub fn bookmark_parser(content: &str) -> (groups: Vec<BookmarkGroup>)
    ensures
        groups_view(groups@) == document_groups(parsed_page(content@)),
        forall|i: int| 0 <= i < groups@.len() ==> (#[trigger] groups@[i])@.items.len() > 0,
        page_match(parsed_page(content@), toolbar_selector()) is None ==> groups@.len() == 0,
{
    let document = parse_document(content);
    extract_groups(&document)
}

} // verus!

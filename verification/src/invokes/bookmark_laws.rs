//! What always holds of the groups that the bookmark parser returns.

use crate::dom::{
    descend, find_from, first_named, is_named, lemma_find_from_found, page_match, parsed_page,
    DomNode, Page,
};
use crate::invokes::bookmark_parser::{
    direct_links, document_groups, entry_direct, entry_group, entry_link, entry_links,
    fallback_title, folder_groups, groups_view, host_title, is_folder, link_title, list_links,
    toolbar_groups, toolbar_of, toolbar_selector, BookmarkGroup, GroupView, ItemView,
};
use vstd::prelude::*;

verus! {

/// Reading the same text twice gives the same groups, with the same
/// bookmarks in the same order: whatever two runs return is equal.
pub proof fn same_text_same_groups(
    content: Seq<char>,
    first: Vec<BookmarkGroup>,
    second: Vec<BookmarkGroup>,
)
    requires
        groups_view(first@) == document_groups(parsed_page(content)),
        groups_view(second@) == document_groups(parsed_page(content)),
    ensures
        groups_view(first@) == groups_view(second@),
        first@.len() == second@.len(),
{
    assert(groups_view(first@).len() == first@.len());
    assert(groups_view(second@).len() == second@.len());
}

/// A title is never empty.
pub proof fn titles_are_not_empty(text: Seq<char>, href: Seq<char>)
    ensures
        fallback_title(href).len() > 0,
        link_title(text, href).len() > 0,
{
    reveal_strlit("Untitled");
    assert(forall|host: Option<Seq<char>>| (#[trigger] host_title(host)).len() > 0);
}

/// Every bookmark that a list yields has a title.
pub proof fn listed_titles_are_not_empty(list: DomNode, i: int)
    ensures
        forall|k: int|
            0 <= k < list_links(list, i).len() ==> (#[trigger] list_links(list, i)[k]).title.len()
                > 0,
    decreases list, list.children.len() - i, 1nat,
{
    if 0 <= i < list.children.len() {
        let here = entry_links(list.children[i]);
        let rest = list_links(list, i + 1);
        entry_titles_are_not_empty(list.children[i]);
        listed_titles_are_not_empty(list, i + 1);
        assert forall|k: int| 0 <= k < list_links(list, i).len() implies (#[trigger] list_links(
            list,
            i,
        )[k]).title.len() > 0 by {
            if k < here.len() {
                assert(list_links(list, i)[k] == here[k]);
            } else {
                assert(list_links(list, i)[k] == rest[k - here.len()]);
            }
        }
    }
}

/// Every bookmark that one child of a list yields has a title.
pub proof fn entry_titles_are_not_empty(entry: DomNode)
    ensures
        forall|k: int|
            0 <= k < entry_links(entry).len() ==> (#[trigger] entry_links(entry)[k]).title.len()
                > 0,
    decreases entry, 0nat, 0nat,
{
    if !is_named(entry, "dt"@) {
        assert(entry_links(entry) =~= Seq::<ItemView>::empty());
    } else if is_folder(entry) {
        match find_from(entry, 0, "dl"@) {
            Some(p) => {
                lemma_find_from_found(entry, 0, "dl"@);
                listed_titles_are_not_empty(descend(entry, p), 0);
                assert(entry_links(entry) == list_links(descend(entry, p), 0));
            },
            None => {
                assert(entry_links(entry) =~= Seq::<ItemView>::empty());
            },
        }
    } else {
        match entry_link(entry) {
            Some(item) => {
                let a = first_named(entry, "a"@).unwrap();
                titles_are_not_empty(a.inner_html, item.url);
                assert(entry_links(entry)[0] == item);
            },
            None => {},
        }
    }
}

/// Every bookmark of every group of a document has a title.
pub proof fn no_title_is_empty(page: Page)
    ensures
        forall|g: int, k: int|
            0 <= g < document_groups(page).len() && 0 <= k < document_groups(page)[g].items.len()
                ==> (#[trigger] document_groups(page)[g].items[k]).title.len() > 0,
{
    match toolbar_of(page) {
        Some((title, list)) => {
            direct_titles_are_not_empty(list, 0);
            folder_titles_are_not_empty(list, 0);
            let groups = document_groups(page);
            let folders = folder_groups(list, 0);
            assert forall|g: int, k: int|
                0 <= g < groups.len() && 0 <= k < groups[g].items.len() implies (
            #[trigger] groups[g].items[k]).title.len() > 0 by {
                if direct_links(list, 0).len() > 0 {
                    if g > 0 {
                        assert(groups[g] == folders[g - 1]);
                    }
                }
            }
        },
        None => {},
    }
}

/// Every direct bookmark of a toolbar has a title.
pub proof fn direct_titles_are_not_empty(list: DomNode, i: int)
    ensures
        forall|k: int|
            0 <= k < direct_links(list, i).len() ==> (#[trigger] direct_links(
                list,
                i,
            )[k]).title.len() > 0,
    decreases list.children.len() - i,
{
    if 0 <= i < list.children.len() {
        let rest = direct_links(list, i + 1);
        direct_titles_are_not_empty(list, i + 1);
        match entry_direct(list.children[i]) {
            Some(item) => {
                let a = first_named(list.children[i], "a"@).unwrap();
                titles_are_not_empty(a.inner_html, item.url);
                assert forall|k: int| 0 <= k < direct_links(list, i).len() implies (
                #[trigger] direct_links(list, i)[k]).title.len() > 0 by {
                    if k > 0 {
                        assert(direct_links(list, i)[k] == rest[k - 1]);
                    }
                }
            },
            None => {},
        }
    }
}

/// Every bookmark of every folder group has a title.
pub proof fn folder_titles_are_not_empty(list: DomNode, i: int)
    ensures
        forall|g: int, k: int|
            0 <= g < folder_groups(list, i).len() && 0 <= k < folder_groups(list, i)[g].items.len()
                ==> (#[trigger] folder_groups(list, i)[g].items[k]).title.len() > 0,
    decreases list.children.len() - i,
{
    if 0 <= i < list.children.len() {
        let rest = folder_groups(list, i + 1);
        let groups = folder_groups(list, i);
        folder_titles_are_not_empty(list, i + 1);
        match entry_group(list.children[i]) {
            Some(group) => {
                match first_named(list.children[i], "dl"@) {
                    Some(inner) => {
                        listed_titles_are_not_empty(inner, 0);
                    },
                    None => {},
                }
                assert forall|g: int, k: int|
                    0 <= g < groups.len() && 0 <= k < groups[g].items.len() implies (
                #[trigger] groups[g].items[k]).title.len() > 0 by {
                    if g > 0 {
                        assert(groups[g] == rest[g - 1]);
                    } else {
                        assert(groups[0] == group);
                    }
                }
            },
            None => {},
        }
    }
}

/// No folder group is empty.
pub proof fn folder_groups_are_not_empty(list: DomNode, i: int)
    ensures
        forall|k: int|
            0 <= k < folder_groups(list, i).len() ==> (#[trigger] folder_groups(
                list,
                i,
            )[k]).items.len() > 0,
    decreases list.children.len() - i,
{
    if 0 <= i < list.children.len() {
        let rest = folder_groups(list, i + 1);
        folder_groups_are_not_empty(list, i + 1);
        match entry_group(list.children[i]) {
            Some(group) => {
                assert forall|k: int|
                    0 <= k < folder_groups(list, i).len() implies (#[trigger] folder_groups(
                    list,
                    i,
                )[k]).items.len() > 0 by {
                    if k == 0 {
                        assert(folder_groups(list, i)[0] == group);
                    } else {
                        assert(folder_groups(list, i)[k] == rest[k - 1]);
                    }
                }
            },
            None => {},
        }
    }
}

/// No group of a document is empty.
pub proof fn no_group_is_empty(page: Page)
    ensures
        forall|k: int|
            0 <= k < document_groups(page).len() ==> (#[trigger] document_groups(
                page,
            )[k]).items.len() > 0,
{
    match toolbar_of(page) {
        Some((title, list)) => {
            folder_groups_are_not_empty(list, 0);
        },
        None => {},
    }
}

/// Where the toolbar holds bookmarks of its own, the first group is the one
/// named after the toolbar and holds exactly those, wherever in the list the
/// folders stand; the folder groups follow it in their order.
pub proof fn toolbar_group_comes_first(page: Page)
    requires
        toolbar_of(page) matches Some((title, list)) && direct_links(list, 0).len() > 0,
    ensures
        toolbar_of(page) matches Some((title, list)) && {
            &&& document_groups(page).len() == folder_groups(list, 0).len() + 1
            &&& document_groups(page)[0] == (GroupView { name: title, items: direct_links(list, 0) })
            &&& document_groups(page).skip(1) == folder_groups(list, 0)
        },
{
    let (title, list) = toolbar_of(page).unwrap();
    assert(toolbar_groups(title, list).skip(1) =~= folder_groups(list, 0));
}

/// Where the toolbar holds no bookmark of its own, the groups are the folder
/// groups and nothing else.
pub proof fn no_direct_links_no_toolbar_group(page: Page)
    requires
        toolbar_of(page) matches Some((title, list)) && direct_links(list, 0).len() == 0,
    ensures
        toolbar_of(page) matches Some((title, list)) && document_groups(page) == folder_groups(
            list,
            0,
        ),
{
}

/// A document in which nothing is marked as the toolbar folder has no groups.
pub proof fn no_toolbar_no_groups(page: Page)
    requires
        page_match(page, toolbar_selector()) is None,
    ensures
        document_groups(page) == Seq::<GroupView>::empty(),
{
}

/// `part` stands in `whole` as one unbroken run that begins at `start`.
pub open spec fn is_run_at(whole: Seq<ItemView>, part: Seq<ItemView>, start: int) -> bool {
    &&& 0 <= start
    &&& start + part.len() <= whole.len()
    &&& whole.subrange(start, start + part.len()) == part
}

/// `part` stands somewhere in `whole` as one unbroken run.
pub open spec fn holds_run(whole: Seq<ItemView>, part: Seq<ItemView>) -> bool {
    exists|start: int| is_run_at(whole, part, start)
}

/// The list of a child of a list, where that child is a folder with a list.
pub open spec fn folder_list(entry: DomNode) -> Option<DomNode> {
    if is_named(entry, "dt"@) && is_folder(entry) {
        first_named(entry, "dl"@)
    } else {
        None
    }
}

/// `inner` is the list of a folder that stands `depth` folders deep in `list`
/// (`list` itself at depth 0).
pub open spec fn nested_list(list: DomNode, inner: DomNode, depth: nat) -> bool
    decreases depth, 0nat,
{
    if depth == 0 {
        inner == list
    } else {
        exists|i: int|
            0 <= i < list.children.len() && nested_in_child(
                #[trigger] list.children[i],
                inner,
                (depth - 1) as nat,
            )
    }
}

/// `inner` stands `depth` folders deep in the list of the folder `child`.
pub open spec fn nested_in_child(child: DomNode, inner: DomNode, depth: nat) -> bool
    decreases depth, 1nat,
{
    match folder_list(child) {
        Some(sub) => nested_list(sub, inner, depth),
        None => false,
    }
}

/// A run within a run is a run.
pub proof fn runs_compose(whole: Seq<ItemView>, middle: Seq<ItemView>, part: Seq<ItemView>)
    requires
        holds_run(whole, middle),
        holds_run(middle, part),
    ensures
        holds_run(whole, part),
{
    let a = choose|start: int| is_run_at(whole, middle, start);
    let b = choose|start: int| is_run_at(middle, part, start);
    assert(whole.subrange(a + b, a + b + part.len()) =~= whole.subrange(
        a,
        a + middle.len(),
    ).subrange(b, b + part.len()));
    assert(is_run_at(whole, part, a + b));
}

/// What child `i` of a list contributes stands unbroken in what the children
/// from `from` on contribute.
pub proof fn entry_links_are_a_run(list: DomNode, from: int, i: int)
    requires
        0 <= from <= i < list.children.len(),
    ensures
        holds_run(list_links(list, from), entry_links(list.children[i])),
    decreases i - from,
{
    let here = entry_links(list.children[from]);
    let rest = list_links(list, from + 1);
    if from == i {
        assert((here + rest).subrange(0, here.len() as int) =~= here);
        assert(is_run_at(list_links(list, from), here, 0));
    } else {
        entry_links_are_a_run(list, from + 1, i);
        let part = entry_links(list.children[i]);
        let start = choose|start: int| is_run_at(rest, part, start);
        assert((here + rest).subrange(here.len() + start, here.len() + start + part.len()) =~= rest.subrange(
            start,
            start + part.len(),
        ));
        assert(is_run_at(list_links(list, from), part, here.len() + start));
    }
}

/// Flattening: the bookmarks of a list nested at any depth stand, unbroken
/// and in their order, among the bookmarks of the list that encloses it.
pub proof fn nested_links_are_a_run(list: DomNode, inner: DomNode, depth: nat)
    requires
        nested_list(list, inner, depth),
    ensures
        holds_run(list_links(list, 0), list_links(inner, 0)),
    decreases depth,
{
    let all = list_links(list, 0);
    if depth == 0 {
        assert(all.subrange(0, all.len() as int) =~= all);
        assert(is_run_at(all, all, 0));
    } else {
        let i = choose|i: int|
            0 <= i < list.children.len() && nested_in_child(
                #[trigger] list.children[i],
                inner,
                (depth - 1) as nat,
            );
        let sub = folder_list(list.children[i]).unwrap();
        lemma_find_from_found(list.children[i], 0, "dl"@);
        assert(entry_links(list.children[i]) == list_links(sub, 0));
        nested_links_are_a_run(sub, inner, (depth - 1) as nat);
        entry_links_are_a_run(list, 0, i);
        runs_compose(all, list_links(sub, 0), list_links(inner, 0));
    }
}

/// Flattening, for one bookmark: a link that stands in a list nested at any
/// depth below a folder of the toolbar is one of the bookmarks of that
/// folder's group, and the folder has a group.
pub proof fn nested_bookmark_is_in_its_folder_group(
    folder: DomNode,
    inner: DomNode,
    depth: nat,
    k: int,
)
    requires
        is_named(folder, "dt"@),
        first_named(folder, "h3"@) is Some,
        first_named(folder, "dl"@) matches Some(list) && nested_list(list, inner, depth),
        0 <= k < inner.children.len(),
        entry_direct(inner.children[k]) is Some,
    ensures
        entry_group(folder) matches Some(group) && group.items.contains(
            entry_direct(inner.children[k]).unwrap(),
        ),
{
    let list = first_named(folder, "dl"@).unwrap();
    let item = entry_direct(inner.children[k]).unwrap();
    let all = list_links(list, 0);
    let within = list_links(inner, 0);
    assert(entry_links(inner.children[k]) =~= seq![item]);
    entry_links_are_a_run(inner, 0, k);
    nested_links_are_a_run(list, inner, depth);
    runs_compose(all, within, seq![item]);
    let start = choose|start: int| is_run_at(all, seq![item], start);
    assert(all.subrange(start, start + 1)[0] == item);
    assert(all[start] == item);
}

/// The indices, from `i` on, of the children of the toolbar's list that give
/// a group: the folders below which there is a bookmark.
pub open spec fn group_entries(list: DomNode, i: int) -> Seq<int>
    decreases list.children.len() - i,
{
    if i < 0 || i >= list.children.len() {
        Seq::empty()
    } else if entry_group(list.children[i]) is Some {
        seq![i] + group_entries(list, i + 1)
    } else {
        group_entries(list, i + 1)
    }
}

/// One folder, one group: the folder groups are, in the order of the list,
/// the groups of exactly those children that give one. However deep a folder
/// is nested inside, it adds no group of its own.
pub proof fn one_group_for_each_folder(list: DomNode, i: int)
    requires
        0 <= i,
    ensures
        folder_groups(list, i).len() == group_entries(list, i).len(),
        i <= list.children.len() ==> folder_groups(list, i).len() <= list.children.len() - i,
        forall|k: int|
            0 <= k < group_entries(list, i).len() ==> {
                let at = #[trigger] group_entries(list, i)[k];
                &&& i <= at < list.children.len()
                &&& entry_group(list.children[at]) == Some(folder_groups(list, i)[k])
            },
        forall|k: int, m: int|
            0 <= k < m < group_entries(list, i).len() ==> #[trigger] group_entries(list, i)[k]
                < #[trigger] group_entries(list, i)[m],
        forall|j: int|
            i <= j < list.children.len() && entry_group(#[trigger] list.children[j]) is Some
                ==> group_entries(list, i).contains(j),
    decreases list.children.len() - i,
{
    if i < list.children.len() {
        one_group_for_each_folder(list, i + 1);
        let entries = group_entries(list, i);
        let later = group_entries(list, i + 1);
        let groups = folder_groups(list, i);
        let later_groups = folder_groups(list, i + 1);
        match entry_group(list.children[i]) {
            Some(group) => {
                assert(entries =~= seq![i] + later);
                assert(groups =~= seq![group] + later_groups);
                assert forall|k: int| 0 <= k < entries.len() implies {
                    let at = #[trigger] entries[k];
                    &&& i <= at < list.children.len()
                    &&& entry_group(list.children[at]) == Some(groups[k])
                } by {
                    if k > 0 {
                        assert(entries[k] == later[k - 1]);
                        assert(groups[k] == later_groups[k - 1]);
                    }
                }
                assert forall|k: int, m: int| 0 <= k < m < entries.len() implies #[trigger] entries[k]
                    < #[trigger] entries[m] by {
                    assert(entries[m] == later[m - 1]);
                    if k > 0 {
                        assert(entries[k] == later[k - 1]);
                    }
                }
                assert forall|j: int|
                    i <= j < list.children.len() && entry_group(
                        #[trigger] list.children[j],
                    ) is Some implies entries.contains(j) by {
                    if j == i {
                        assert(entries[0] == i);
                    } else {
                        let k = choose|k: int| 0 <= k < later.len() && later[k] == j;
                        assert(entries[k + 1] == j);
                    }
                }
            },
            None => {
                assert forall|j: int|
                    i <= j < list.children.len() && entry_group(
                        #[trigger] list.children[j],
                    ) is Some implies entries.contains(j) by {
                    assert(later.contains(j));
                }
            },
        }
    }
}

} // verus!

use scraper::{Html, Selector};
use vust_desk::invokes::bookmark_parser::{
    bookmark_parser, extract_groups, extract_links_recursive, title_from_host, BookmarkGroup,
    BookmarkItem,
};

const EXPORT: &str = r#"<!DOCTYPE NETSCAPE-Bookmark-file-1>
<META HTTP-EQUIV="Content-Type" CONTENT="text/html; charset=UTF-8">
<TITLE>Bookmarks</TITLE>
<H1>Bookmarks</H1>
<DL><p>
    <DT><H3 ADD_DATE="1" PERSONAL_TOOLBAR_FOLDER="true">Bookmarks bar</H3>
    <DL><p>
        <DT><A HREF="http://a.com"></A>
        <DT><H3>Work</H3>
        <DL><p>
            <DT><A HREF="https://one.example/">One</A>
            <DT><A HREF="https://two.example/">Two</A>
        </DL><p>
    </DL><p>
</DL><p>
"#;

fn toolbar(entries: &str) -> String {
    format!(
        "<!DOCTYPE NETSCAPE-Bookmark-file-1>\n<H1>Bookmarks</H1>\n<DL><p>\n<DT><H3 PERSONAL_TOOLBAR_FOLDER=\"true\">Bar</H3>\n<DL><p>\n{}</DL><p>\n</DL><p>\n",
        entries
    )
}

fn flat(groups: &Vec<BookmarkGroup>) -> Vec<(String, Vec<(String, String)>)> {
    groups
        .iter()
        .map(|g| {
            (
                g.name().to_string(),
                g.items()
                    .iter()
                    .map(|i| (i.title().to_string(), i.url().to_string()))
                    .collect(),
            )
        })
        .collect()
}

fn pair(title: &str, url: &str) -> (String, String) {
    (title.to_string(), url.to_string())
}

#[test]
fn toolbar_with_direct_link_and_folder() {
    let groups = bookmark_parser(EXPORT);
    assert_eq!(groups.len(), 2);
    assert_eq!(groups[0].name(), "Bookmarks bar");
    assert_eq!(groups[0].items().len(), 1);
    assert_eq!(groups[0].items()[0].title(), "a.com");
    assert_eq!(groups[0].items()[0].url(), "http://a.com");
    assert_eq!(groups[1].name(), "Work");
    assert_eq!(groups[1].items().len(), 2);
    assert_eq!(groups[1].items()[0].title(), "One");
    assert_eq!(groups[1].items()[0].url(), "https://one.example/");
    assert_eq!(groups[1].items()[1].title(), "Two");
    assert_eq!(groups[1].items()[1].url(), "https://two.example/");
}

#[test]
fn empty_text_falls_back_to_the_host() {
    let groups = bookmark_parser(&toolbar("<DT><A HREF=\"https://example.com/page\"></A>\n"));
    assert_eq!(
        flat(&groups),
        vec![("Bar".to_string(), vec![pair("example.com", "https://example.com/page")])]
    );
}

#[test]
fn blank_text_falls_back_to_the_host() {
    let groups = bookmark_parser(&toolbar("<DT><A HREF=\"https://example.com/page\">  \t </A>\n"));
    assert_eq!(groups[0].items()[0].title(), "example.com");
}

#[test]
fn empty_text_and_no_url_gives_untitled() {
    let groups = bookmark_parser(&toolbar("<DT><A HREF=\"not a url\"></A>\n"));
    assert_eq!(
        flat(&groups),
        vec![("Bar".to_string(), vec![pair("Untitled", "not a url")])]
    );
}

#[test]
fn empty_text_and_url_without_host_gives_untitled() {
    let groups = bookmark_parser(&toolbar("<DT><A HREF=\"mailto:someone@example.com\"></A>\n"));
    assert_eq!(
        flat(&groups),
        vec![("Bar".to_string(), vec![pair("Untitled", "mailto:someone@example.com")])]
    );
}

#[test]
fn padded_text_is_kept_without_the_padding() {
    let groups = bookmark_parser(&toolbar("<DT><A HREF=\"https://example.com/\">   Padded title \n</A>\n"));
    assert_eq!(
        flat(&groups),
        vec![("Bar".to_string(), vec![pair("Padded title", "https://example.com/")])]
    );
}

#[test]
fn folder_names_are_trimmed() {
    let groups = bookmark_parser(&toolbar(
        "<DT><H3>  News  </H3>\n<DL><p>\n<DT><A HREF=\"https://n.example/\">N</A>\n</DL><p>\n",
    ));
    assert_eq!(
        flat(&groups),
        vec![("News".to_string(), vec![pair("N", "https://n.example/")])]
    );
}

#[test]
fn title_keeps_its_markup() {
    let groups = bookmark_parser(&toolbar("<DT><A HREF=\"https://example.com/\">Tom &amp; Jerry</A>\n"));
    assert_eq!(groups[0].items()[0].title(), "Tom &amp; Jerry");
}

#[test]
fn no_toolbar_folder_gives_no_groups() {
    let text = "<!DOCTYPE NETSCAPE-Bookmark-file-1>\n<H1>Bookmarks</H1>\n<DL><p>\n<DT><H3>Other</H3>\n<DL><p>\n<DT><A HREF=\"https://example.com/\">E</A>\n</DL><p>\n</DL><p>\n";
    assert!(bookmark_parser(text).is_empty());
}

#[test]
fn toolbar_marked_false_is_no_toolbar() {
    let text = "<DL><p>\n<DT><H3 PERSONAL_TOOLBAR_FOLDER=\"false\">Bar</H3>\n<DL><p>\n<DT><A HREF=\"https://example.com/\">E</A>\n</DL><p>\n</DL><p>\n";
    assert!(bookmark_parser(text).is_empty());
}

#[test]
fn empty_text_gives_no_groups() {
    assert!(bookmark_parser("").is_empty());
}

#[test]
fn text_that_is_no_markup_gives_no_groups() {
    assert!(bookmark_parser("just some words, no tags at all").is_empty());
}

#[test]
fn toolbar_without_a_list_gives_no_groups() {
    let text = "<DL><p>\n<DT><H3 PERSONAL_TOOLBAR_FOLDER=\"true\">Bar</H3>\n</DL><p>\n";
    assert!(bookmark_parser(text).is_empty());
}

#[test]
fn toolbar_with_an_empty_list_gives_no_groups() {
    assert!(bookmark_parser(&toolbar("")).is_empty());
}

#[test]
fn toolbar_group_comes_first_even_after_folders() {
    let groups = bookmark_parser(&toolbar(
        "<DT><H3>First folder</H3>\n<DL><p>\n<DT><A HREF=\"https://f.example/\">F</A>\n</DL><p>\n\
         <DT><A HREF=\"https://direct.example/\">Direct</A>\n\
         <DT><H3>Second folder</H3>\n<DL><p>\n<DT><A HREF=\"https://s.example/\">S</A>\n</DL><p>\n\
         <DT><A HREF=\"https://late.example/\">Late</A>\n",
    ));
    assert_eq!(
        flat(&groups),
        vec![
            (
                "Bar".to_string(),
                vec![pair("Direct", "https://direct.example/"), pair("Late", "https://late.example/")]
            ),
            ("First folder".to_string(), vec![pair("F", "https://f.example/")]),
            ("Second folder".to_string(), vec![pair("S", "https://s.example/")]),
        ]
    );
}

#[test]
fn folders_only_give_no_toolbar_group() {
    let groups = bookmark_parser(&toolbar(
        "<DT><H3>A</H3>\n<DL><p>\n<DT><A HREF=\"https://a.example/\">a</A>\n</DL><p>\n\
         <DT><H3>B</H3>\n<DL><p>\n<DT><A HREF=\"https://b.example/\">b</A>\n</DL><p>\n",
    ));
    assert_eq!(
        flat(&groups),
        vec![
            ("A".to_string(), vec![pair("a", "https://a.example/")]),
            ("B".to_string(), vec![pair("b", "https://b.example/")]),
        ]
    );
}

#[test]
fn nested_folders_are_flattened_into_the_top_folder() {
    let groups = bookmark_parser(&toolbar(
        "<DT><H3>A</H3>\n<DL><p>\n\
           <DT><A HREF=\"https://top.example/\">top</A>\n\
           <DT><H3>A1</H3>\n<DL><p>\n\
             <DT><A HREF=\"https://one.example/\">one</A>\n\
             <DT><H3>A2</H3>\n<DL><p>\n\
               <DT><H3>A3</H3>\n<DL><p>\n\
                 <DT><A HREF=\"https://deep.example/\">deep</A>\n\
               </DL><p>\n\
               <DT><A HREF=\"https://two.example/\">two</A>\n\
             </DL><p>\n\
           </DL><p>\n\
           <DT><A HREF=\"https://last.example/\">last</A>\n\
         </DL><p>\n",
    ));
    assert_eq!(
        flat(&groups),
        vec![(
            "A".to_string(),
            vec![
                pair("top", "https://top.example/"),
                pair("one", "https://one.example/"),
                pair("deep", "https://deep.example/"),
                pair("two", "https://two.example/"),
                pair("last", "https://last.example/"),
            ]
        )]
    );
}

#[test]
fn empty_folders_are_left_out() {
    let groups = bookmark_parser(&toolbar(
        "<DT><H3>Empty</H3>\n<DL><p>\n</DL><p>\n\
         <DT><H3>Only empty inside</H3>\n<DL><p>\n<DT><H3>Inner</H3>\n<DL><p>\n</DL><p>\n</DL><p>\n\
         <DT><H3>No list at all</H3>\n\
         <DT><H3>Full</H3>\n<DL><p>\n<DT><A HREF=\"https://f.example/\">f</A>\n</DL><p>\n",
    ));
    assert_eq!(
        flat(&groups),
        vec![("Full".to_string(), vec![pair("f", "https://f.example/")])]
    );
    for group in &groups {
        assert!(!group.items().is_empty());
    }
}

#[test]
fn links_without_an_address_are_skipped() {
    let groups = bookmark_parser(&toolbar(
        "<DT><A>no href</A>\n\
         <DT><A HREF=\"\">empty href</A>\n\
         <DT><A HREF=\"   \">blank href</A>\n\
         <DT><A HREF=\"https://kept.example/\">kept</A>\n",
    ));
    assert_eq!(
        flat(&groups),
        vec![("Bar".to_string(), vec![pair("kept", "https://kept.example/")])]
    );
}

#[test]
fn only_skipped_links_give_no_groups() {
    assert!(bookmark_parser(&toolbar("<DT><A HREF=\"\">empty href</A>\n<DT><A>none</A>\n")).is_empty());
}

#[test]
fn duplicates_are_kept() {
    let groups = bookmark_parser(&toolbar(
        "<DT><A HREF=\"https://same.example/\">same</A>\n\
         <DT><A HREF=\"https://same.example/\">same</A>\n\
         <DT><H3>F</H3>\n<DL><p>\n\
           <DT><A HREF=\"https://same.example/\">same</A>\n\
           <DT><A HREF=\"https://same.example/\">same</A>\n\
         </DL><p>\n",
    ));
    assert_eq!(
        flat(&groups),
        vec![
            (
                "Bar".to_string(),
                vec![pair("same", "https://same.example/"), pair("same", "https://same.example/")]
            ),
            (
                "F".to_string(),
                vec![pair("same", "https://same.example/"), pair("same", "https://same.example/")]
            ),
        ]
    );
}

#[test]
fn addresses_are_stored_as_written() {
    let groups = bookmark_parser(&toolbar(
        "<DT><A HREF=\"/relative/path\">rel</A>\n\
         <DT><A HREF=\"example.com/no-scheme\"></A>\n\
         <DT><A HREF=\"  https://spaced.example/  \">spaced</A>\n",
    ));
    assert_eq!(
        flat(&groups),
        vec![(
            "Bar".to_string(),
            vec![
                pair("rel", "/relative/path"),
                pair("Untitled", "example.com/no-scheme"),
                pair("spaced", "  https://spaced.example/  "),
            ]
        )]
    );
}

#[test]
fn entries_of_another_shape_are_skipped() {
    let groups = bookmark_parser(&toolbar(
        "<DT>words only\n<HR>\n<DD>a description\n<DT><A HREF=\"https://k.example/\">k</A>\n",
    ));
    assert_eq!(
        flat(&groups),
        vec![("Bar".to_string(), vec![pair("k", "https://k.example/")])]
    );
}

#[test]
fn reading_twice_gives_the_same_groups() {
    let first = bookmark_parser(EXPORT);
    let second = bookmark_parser(EXPORT);
    assert_eq!(flat(&first), flat(&second));
}

#[test]
fn titles_and_groups_are_never_empty() {
    let groups = bookmark_parser(&toolbar(
        "<DT><A HREF=\"https://a.example/\"></A>\n<DT><A HREF=\"x\"> </A>\n\
         <DT><H3></H3>\n<DL><p>\n<DT><A HREF=\"y\"></A>\n</DL><p>\n",
    ));
    assert_eq!(groups.len(), 2);
    for group in &groups {
        assert!(!group.items().is_empty());
        for item in group.items() {
            assert!(!item.title().is_empty());
        }
    }
    assert_eq!(groups[1].name(), "");
}

#[test]
fn a_clone_holds_the_same() {
    let groups = bookmark_parser(EXPORT);
    let copies: Vec<BookmarkGroup> = groups.iter().map(|g| g.clone()).collect();
    assert_eq!(flat(&groups), flat(&copies));
    let item: BookmarkItem = groups[1].items()[1].clone();
    assert_eq!(item.title(), "Two");
    assert_eq!(item.url(), "https://two.example/");
}

#[test]
fn extract_groups_reads_a_parsed_document() {
    let document = Html::parse_document(EXPORT);
    let groups = extract_groups(&document);
    assert_eq!(flat(&groups), flat(&bookmark_parser(EXPORT)));
    assert_eq!(groups.len(), 2);
}

#[test]
fn extract_links_recursive_appends_in_document_order() {
    let document = Html::parse_document(EXPORT);
    let lists = Selector::parse("dl").unwrap();
    let outer = document.select(&lists).next().unwrap();
    let mut items = bookmark_parser(&toolbar("<DT><A HREF=\"https://kept.example/\">kept</A>\n"))[0]
        .items()
        .clone();
    extract_links_recursive(outer, &mut items);
    let got: Vec<(String, String)> =
        items.iter().map(|i| (i.title().to_string(), i.url().to_string())).collect();
    assert_eq!(
        got,
        vec![
            pair("kept", "https://kept.example/"),
            pair("a.com", "http://a.com"),
            pair("One", "https://one.example/"),
            pair("Two", "https://two.example/"),
        ]
    );
}

#[test]
fn extract_links_recursive_on_a_list_without_links_adds_nothing() {
    let document = Html::parse_document("<dl><dt><h3>F</h3><dl></dl></dt><dd>text</dd></dl>");
    let lists = Selector::parse("dl").unwrap();
    let outer = document.select(&lists).next().unwrap();
    let mut items: Vec<BookmarkItem> = Vec::new();
    extract_links_recursive(outer, &mut items);
    assert!(items.is_empty());
}

#[test]
fn toolbar_heading_outside_of_an_entry() {
    let text = "<H3 PERSONAL_TOOLBAR_FOLDER=\"true\"> Loose bar </H3>\n<DL><p>\n<DT><A HREF=\"https://l.example/\">l</A>\n</DL><p>\n";
    assert_eq!(
        flat(&bookmark_parser(text)),
        vec![("Loose bar".to_string(), vec![pair("l", "https://l.example/")])]
    );
}

#[test]
fn only_the_first_toolbar_folder_counts() {
    let text = "<DL><p>\n\
        <DT><H3 PERSONAL_TOOLBAR_FOLDER=\"true\">First</H3>\n<DL><p>\n<DT><A HREF=\"https://1.example/\">1</A>\n</DL><p>\n\
        <DT><H3 PERSONAL_TOOLBAR_FOLDER=\"true\">Second</H3>\n<DL><p>\n<DT><A HREF=\"https://2.example/\">2</A>\n</DL><p>\n\
        </DL><p>\n";
    assert_eq!(
        flat(&bookmark_parser(text)),
        vec![("First".to_string(), vec![pair("1", "https://1.example/")])]
    );
}

#[test]
fn lower_case_markup_reads_the_same() {
    let text = "<dl><dt><h3 personal_toolbar_folder=\"true\">bar</h3><dl><dt><a href=\"https://x.example/\">x</a></dt><dt><h3>f</h3><dl><dt><a href=\"https://y.example/\">y</a></dt></dl></dt></dl></dt></dl>";
    assert_eq!(
        flat(&bookmark_parser(text)),
        vec![
            ("bar".to_string(), vec![pair("x", "https://x.example/")]),
            ("f".to_string(), vec![pair("y", "https://y.example/")]),
        ]
    );
}

#[test]
fn a_link_inside_a_folder_heading_entry_is_not_a_direct_link() {
    let groups = bookmark_parser(&toolbar(
        "<DT><H3>F</H3>\n<DL><p>\n<DT><A HREF=\"https://in.example/\">in</A>\n</DL><p>\n",
    ));
    assert_eq!(groups.len(), 1);
    assert_eq!(groups[0].name(), "F");
}

#[test]
fn title_from_a_host() {
    assert_eq!(title_from_host(Some("example.com".to_string())), "example.com");
    assert_eq!(title_from_host(Some(String::new())), "Untitled");
    assert_eq!(title_from_host(None), "Untitled");
}

#[test]
fn the_toolbar_is_the_marked_heading_that_was_read_first() {
    // The second heading is moved out of the table and so stands before the
    // first one in the tree; the first one read is still the toolbar.
    let text = "<table><tr><td><h3 PERSONAL_TOOLBAR_FOLDER=\"true\">B</h3>\
        <dl><dt><a href=\"https://b.example/\">b</a></dl></td></tr>\
        <h3 PERSONAL_TOOLBAR_FOLDER=\"true\">A</h3></table>";
    assert_eq!(
        flat(&bookmark_parser(text)),
        vec![("B".to_string(), vec![pair("b", "https://b.example/")])]
    );
}

#[test]
fn every_kind_of_white_space_is_trimmed() {
    // All but the no-break space, which the markup of a title holds as an
    // entity.
    let white = [
        '\u{9}', '\u{A}', '\u{B}', '\u{C}', '\u{D}', ' ', '\u{85}', '\u{1680}',
        '\u{2000}', '\u{2001}', '\u{2002}', '\u{2003}', '\u{2004}', '\u{2005}', '\u{2006}',
        '\u{2007}', '\u{2008}', '\u{2009}', '\u{200A}', '\u{2028}', '\u{2029}', '\u{202F}',
        '\u{205F}', '\u{3000}',
    ];
    for c in white {
        let groups = bookmark_parser(&toolbar(&format!(
            "<DT><A HREF=\"https://w.example/\">{}x y{}</A>\n",
            c, c
        )));
        assert_eq!(groups[0].items()[0].title(), "x y");
    }
}

#[test]
fn what_is_no_white_space_is_kept() {
    for c in ['\u{180E}', '\u{200B}', '\u{2060}', '\u{FEFF}', '\u{1F}', '_'] {
        let groups = bookmark_parser(&toolbar(&format!(
            "<DT><A HREF=\"https://w.example/\">{}x{}</A>\n",
            c, c
        )));
        assert_eq!(groups[0].items()[0].title(), format!("{}x{}", c, c));
    }
}

#[test]
fn a_no_break_space_in_a_title_is_markup_and_stays() {
    let groups = bookmark_parser(&toolbar(
        "<DT><A HREF=\"https://w.example/\">\u{A0}x\u{A0}</A>\n",
    ));
    assert_eq!(groups[0].items()[0].title(), "&nbsp;x&nbsp;");
}

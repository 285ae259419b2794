use scraper::Html;
use vust_desk::invokes::metadata::{
    digest_file_name, document_metadata, extension_of_path, favicon_file_name, find_favicon_url,
    get_extension_from_headers, get_extension_from_url, icon_file_name, parse_metadata_from_body,
    uploaded_icon_file_name, WebsiteMetadata,
};

#[test]
fn extension_from_content_type() {
    assert_eq!(get_extension_from_headers(Some("image/png")), Some("png"));
    assert_eq!(get_extension_from_headers(Some("image/x-icon")), Some("ico"));
    assert_eq!(get_extension_from_headers(Some("image/vnd.microsoft.icon")), Some("ico"));
    assert_eq!(get_extension_from_headers(Some("image/svg+xml; charset=utf-8")), Some("svg"));
    assert_eq!(get_extension_from_headers(Some("image/jpeg")), Some("jpg"));
    assert_eq!(get_extension_from_headers(Some("image/gif")), Some("gif"));
}

#[test]
fn unknown_or_missing_content_type_gives_no_extension() {
    assert_eq!(get_extension_from_headers(Some("text/html")), None);
    assert_eq!(get_extension_from_headers(Some("IMAGE/PNG")), None);
    assert_eq!(get_extension_from_headers(Some("")), None);
    assert_eq!(get_extension_from_headers(None), None);
}

#[test]
fn first_known_content_type_wins() {
    assert_eq!(get_extension_from_headers(Some("image/gif, image/png")), Some("png"));
}

#[test]
fn extension_from_url_path() {
    assert_eq!(get_extension_from_url("https://example.com/a/icon.png"), Some("png"));
    assert_eq!(get_extension_from_url("https://example.com/favicon.ico?v=2"), Some("ico"));
    assert_eq!(get_extension_from_url("https://example.com/logo.SVG#frag"), Some("svg"));
    assert_eq!(get_extension_from_url("https://example.com/p.jpg"), Some("jpg"));
    assert_eq!(get_extension_from_url("https://example.com/p.JPEG"), Some("jpg"));
    assert_eq!(get_extension_from_url("https://example.com/p.gif"), Some("gif"));
}

#[test]
fn url_without_known_extension_gives_none() {
    assert_eq!(get_extension_from_url("https://example.com/icon"), None);
    assert_eq!(get_extension_from_url("https://example.com/icon.webp"), None);
    assert_eq!(get_extension_from_url("https://example.com/?file=icon.png"), None);
    assert_eq!(get_extension_from_url("icon.png"), None);
    assert_eq!(get_extension_from_url(""), None);
}

#[test]
fn icon_name_is_sixteen_digits_of_the_digest() {
    assert_eq!(icon_file_name(b"", "png"), "e3b0c44298fc1c14.png");
    assert_eq!(icon_file_name(b"abc", "ico"), "ba7816bf8f01cfea.ico");
    assert_eq!(icon_file_name(b"abc", ""), "ba7816bf8f01cfea.");
}

#[test]
fn favicon_name_takes_the_extension_from_the_content_type_first() {
    assert_eq!(
        favicon_file_name(b"abc", Some("image/gif"), "https://example.com/icon.png"),
        "ba7816bf8f01cfea.gif"
    );
    assert_eq!(
        favicon_file_name(b"abc", Some("application/octet-stream"), "https://example.com/icon.svg"),
        "ba7816bf8f01cfea.svg"
    );
    assert_eq!(favicon_file_name(b"abc", None, "https://example.com/icon.jpeg"), "ba7816bf8f01cfea.jpg");
    assert_eq!(favicon_file_name(b"abc", None, "https://example.com/icon"), "ba7816bf8f01cfea.png");
    assert_eq!(favicon_file_name(b"abc", None, "no url"), "ba7816bf8f01cfea.png");
}

#[test]
fn uploaded_name_lowers_the_extension() {
    assert_eq!(uploaded_icon_file_name(b"abc", Some("PNG")), "ba7816bf8f01cfea.png");
    assert_eq!(uploaded_icon_file_name(b"abc", Some("webp")), "ba7816bf8f01cfea.webp");
    assert_eq!(uploaded_icon_file_name(b"abc", None), "ba7816bf8f01cfea.png");
}

#[test]
fn favicon_from_icon_link() {
    let page = Html::parse_document(
        "<html><head><link rel=\"apple-touch-icon\" href=\"/touch.png\"><link rel=\"icon\" href=\" /static/icon.png \"></head></html>",
    );
    assert_eq!(
        find_favicon_url(&page, "https://example.com/a/b.html"),
        Some("https://example.com/static/icon.png".to_string())
    );
}

#[test]
fn favicon_from_later_kinds_of_link() {
    let touch = Html::parse_document("<link rel=\"apple-touch-icon\" href=\"touch.png\">");
    assert_eq!(
        find_favicon_url(&touch, "https://example.com/a/b.html"),
        Some("https://example.com/a/touch.png".to_string())
    );
    let shortcut = Html::parse_document("<link rel=\"shortcut icon\" href=\"https://cdn.example.net/i.ico\">");
    assert_eq!(
        find_favicon_url(&shortcut, "https://example.com/"),
        Some("https://cdn.example.net/i.ico".to_string())
    );
}

#[test]
fn favicon_falls_back_to_the_root() {
    let none = Html::parse_document("<html><head><title>t</title></head></html>");
    assert_eq!(
        find_favicon_url(&none, "https://example.com/deep/page?q=1"),
        Some("https://example.com/favicon.ico".to_string())
    );
    let blank = Html::parse_document("<link rel=\"icon\" href=\"  \">");
    assert_eq!(
        find_favicon_url(&blank, "https://example.com/deep/page"),
        Some("https://example.com/favicon.ico".to_string())
    );
    let missing = Html::parse_document("<link rel=\"icon\">");
    assert_eq!(
        find_favicon_url(&missing, "https://example.com/"),
        Some("https://example.com/favicon.ico".to_string())
    );
}

#[test]
fn favicon_needs_an_absolute_base() {
    let page = Html::parse_document("<link rel=\"icon\" href=\"/icon.png\">");
    assert_eq!(find_favicon_url(&page, "not a url"), None);
    assert_eq!(find_favicon_url(&page, ""), None);
}

#[test]
fn metadata_of_a_page_with_a_title() {
    let found = parse_metadata_from_body(
        "<html><head><title>  Example Domain \n</title><link rel=\"icon\" href=\"i.png\"></head><body></body></html>",
        "https://example.com/x/",
    );
    assert_eq!(
        found,
        Some((Some("Example Domain".to_string()), Some("https://example.com/x/i.png".to_string())))
    );
}

#[test]
fn metadata_of_a_page_with_an_empty_title_shows_the_host() {
    let found = parse_metadata_from_body("<title>   </title>", "https://sub.example.com/page");
    assert_eq!(
        found,
        Some((Some("sub.example.com".to_string()), Some("https://sub.example.com/favicon.ico".to_string())))
    );
}

#[test]
fn metadata_of_a_page_without_a_title() {
    let found = parse_metadata_from_body("<p>no title here</p>", "https://example.com/");
    assert_eq!(found, Some((None, Some("https://example.com/favicon.ico".to_string()))));
    let found = parse_metadata_from_body("<p>no title here</p>", "nowhere");
    assert_eq!(found, Some((None, None)));
}

#[test]
fn metadata_with_an_empty_title_and_no_host_is_refused() {
    assert_eq!(parse_metadata_from_body("<title></title>", "not a url"), None);
    assert_eq!(parse_metadata_from_body("<title> </title>", "mailto:someone@example.com"), None);
}

#[test]
fn document_metadata_reads_a_parsed_page() {
    let page = Html::parse_document("<title>Docs</title><link rel=\"shortcut icon\" href=\"/s.ico\">");
    assert_eq!(
        document_metadata(&page, "https://docs.example.org/guide"),
        (Some("Docs".to_string()), Some("https://docs.example.org/s.ico".to_string()))
    );
}

#[test]
fn website_metadata_holds_what_it_is_given() {
    let metadata = WebsiteMetadata {
        title: Some("Docs".to_string()),
        local_icon_path: Some("ba7816bf8f01cfea.png".to_string()),
    };
    assert_eq!(metadata.title.as_deref(), Some("Docs"));
    assert_eq!(metadata.local_icon_path.as_deref(), Some("ba7816bf8f01cfea.png"));
}

#[test]
fn extension_of_a_lower_case_path() {
    assert_eq!(extension_of_path("/a/b.png"), Some("png"));
    assert_eq!(extension_of_path("/favicon.ico"), Some("ico"));
    assert_eq!(extension_of_path("/x.svg"), Some("svg"));
    assert_eq!(extension_of_path("/x.jpg"), Some("jpg"));
    assert_eq!(extension_of_path("/x.jpeg"), Some("jpg"));
    assert_eq!(extension_of_path("/x.gif"), Some("gif"));
    assert_eq!(extension_of_path(".png"), Some("png"));
    assert_eq!(extension_of_path("/x.PNG"), None);
    assert_eq!(extension_of_path("/png"), None);
    assert_eq!(extension_of_path(""), None);
}

#[test]
fn file_name_of_a_digest() {
    let digest = [0x00u8, 0x01, 0x0a, 0x10, 0x7f, 0x80, 0xab, 0xff, 0x12, 0x34];
    assert_eq!(digest_file_name(&digest, "png"), "00010a107f80abff.png");
    assert_eq!(digest_file_name(&digest[..8], "svg"), "00010a107f80abff.svg");
}

#[test]
fn every_kind_of_white_space_is_trimmed_from_an_icon_address() {
    let white = [
        '\u{9}', '\u{A}', '\u{B}', '\u{C}', '\u{D}', ' ', '\u{85}', '\u{A0}', '\u{1680}',
        '\u{2000}', '\u{2001}', '\u{2002}', '\u{2003}', '\u{2004}', '\u{2005}', '\u{2006}',
        '\u{2007}', '\u{2008}', '\u{2009}', '\u{200A}', '\u{2028}', '\u{2029}', '\u{202F}',
        '\u{205F}', '\u{3000}',
    ];
    for c in white {
        let page = Html::parse_document(&format!("<link rel=\"icon\" href=\"{}/i.png{}\">", c, c));
        assert_eq!(
            find_favicon_url(&page, "https://example.com/a/"),
            Some("https://example.com/i.png".to_string())
        );
        let blank = Html::parse_document(&format!("<link rel=\"icon\" href=\"{}{}\">", c, c));
        assert_eq!(
            find_favicon_url(&blank, "https://example.com/a/"),
            Some("https://example.com/favicon.ico".to_string())
        );
    }
}

#[test]
fn what_is_no_white_space_stays_in_an_icon_address() {
    let page = Html::parse_document("<link rel=\"icon\" href=\"\u{200B}\">");
    assert_eq!(
        find_favicon_url(&page, "https://example.com/a/"),
        Some("https://example.com/a/%E2%80%8B".to_string())
    );
}

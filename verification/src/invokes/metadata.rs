//! A web page's title and icon, and the names under which icons are stored.
//!
//! Icons are stored by content: the file name is the first sixteen
//! hexadecimal digits of the SHA-256 digest of the bytes, a dot and an
//! extension, so the same picture is stored once whatever its source.

use crate::digest::{hex_encode, hex_of, lemma_hex_len, sha256, sha256_digest};
use crate::dom::{
    attribute, descend, html_page, inner_html, page_match, parse_document, parsed_page,
    select_in_document, Page,
};
use crate::text::{
    contains, ends_with, has_substring, has_suffix, is_blank, lowercase, to_lowercase, trim,
    trimmed,
};
use crate::web::{
    address_host, host_text, joined, parse_url, parsed_host, parsed_url, path_of, url_join,
    url_path, url_string, url_text,
};
use vstd::prelude::*;
use vstd::string::StringExecFns;

verus! {

/// What is known of a web page: its title, and the file name under which its
/// icon was stored.
pub struct WebsiteMetadata {
    pub title: Option<String>,
    pub local_icon_path: Option<String>,
}

/// The characters of a text that may be missing.
pub open spec fn text_of(text: Option<&str>) -> Option<Seq<char>> {
    match text {
        Some(value) => Some(value@),
        None => None,
    }
}

/// The extension that a content type stands for, if it names one of the
/// picture formats known here.
pub open spec fn content_type_extension(content_type: Seq<char>) -> Option<Seq<char>> {
    if has_substring(content_type, "image/png"@) {
        Some("png"@)
    } else if has_substring(content_type, "image/x-icon"@) || has_substring(
        content_type,
        "image/vnd.microsoft.icon"@,
    ) {
        Some("ico"@)
    } else if has_substring(content_type, "image/svg+xml"@) {
        Some("svg"@)
    } else if has_substring(content_type, "image/jpeg"@) {
        Some("jpg"@)
    } else if has_substring(content_type, "image/gif"@) {
        Some("gif"@)
    } else {
        None
    }
}

/// The extension that the headers of an answer give: that of its content
/// type, where there is one that can be read.
pub open spec fn header_extension(content_type: Option<Seq<char>>) -> Option<Seq<char>> {
    match content_type {
        Some(value) => content_type_extension(value),
        None => None,
    }
}

/// The extension that a lower-case path ends in, if it is one of the picture
/// formats known here.
pub open spec fn path_extension(path: Seq<char>) -> Option<Seq<char>> {
    if has_suffix(path, ".png"@) {
        Some("png"@)
    } else if has_suffix(path, ".ico"@) {
        Some("ico"@)
    } else if has_suffix(path, ".svg"@) {
        Some("svg"@)
    } else if has_suffix(path, ".jpg"@) || has_suffix(path, ".jpeg"@) {
        Some("jpg"@)
    } else if has_suffix(path, ".gif"@) {
        Some("gif"@)
    } else {
        None
    }
}

/// The extension that an address gives: that of its path, read in lower
/// case; none where the address is no absolute URL.
pub open spec fn url_extension(url: Seq<char>) -> Option<Seq<char>> {
    match parsed_url(url) {
        Some(parsed) => path_extension(lowercase(path_of(parsed))),
        None => None,
    }
}

/// The extension of a downloaded icon: what the content type says, else what
/// the address says, else `png`.
pub open spec fn favicon_extension(content_type: Option<Seq<char>>, url: Seq<char>) -> Seq<char> {
    match header_extension(content_type) {
        Some(extension) => extension,
        None => match url_extension(url) {
            Some(extension) => extension,
            None => "png"@,
        },
    }
}

/// The file name of an icon with the given content and extension.
pub open spec fn icon_name(bytes: Seq<u8>, extension: Seq<char>) -> Seq<char> {
    hex_of(sha256(bytes)).take(16) + "."@ + extension
}

/// The extension of an uploaded icon: that of the uploaded file in lower
/// case, or `png` where the file has none.
pub open spec fn uploaded_extension(extension: Option<Seq<char>>) -> Seq<char> {
    match extension {
        Some(given) => lowercase(given),
        None => "png"@,
    }
}

/// The extension for the content type of an answer: `content_type` is the
/// value of the header of that name, or `None` where the answer has no such
/// header or its value is no text.
pub fn get_extension_from_headers(content_type: Option<&str>) -> (r: Option<&'static str>)
    ensures
        match r {
            Some(extension) => header_extension(text_of(content_type)) == Some(
                extension@,
            ),
            None => header_extension(text_of(content_type)) is None,
        },
{
    match content_type {
        Some(ct) => {
            if contains(ct, "image/png") {
                Some("png")
            } else if contains(ct, "image/x-icon") || contains(ct, "image/vnd.microsoft.icon") {
                Some("ico")
            } else if contains(ct, "image/svg+xml") {
                Some("svg")
            } else if contains(ct, "image/jpeg") {
                Some("jpg")
            } else if contains(ct, "image/gif") {
                Some("gif")
            } else {
                None
            }
        },
        None => None,
    }
}

/// The extension that a path in lower case ends in.
pub fn extension_of_path(path: &str) -> (r: Option<&'static str>)
    ensures
        match r {
            Some(extension) => path_extension(path@) == Some(extension@),
            None => path_extension(path@) is None,
        },
{
    if ends_with(path, ".png") {
        Some("png")
    } else if ends_with(path, ".ico") {
        Some("ico")
    } else if ends_with(path, ".svg") {
        Some("svg")
    } else if ends_with(path, ".jpg") || ends_with(path, ".jpeg") {
        Some("jpg")
    } else if ends_with(path, ".gif") {
        Some("gif")
    } else {
        None
    }
}

/// The extension that the path of an address ends in.
pub fn get_extension_from_url(url: &str) -> (r: Option<&'static str>)
    ensures
        match r {
            Some(extension) => url_extension(url@) == Some(extension@),
            None => url_extension(url@) is None,
        },
{
    match parse_url(url) {
        Some(parsed) => {
            let path = to_lowercase(url_path(&parsed).as_str());
            extension_of_path(path.as_str())
        },
        None => None,
    }
}

/// The file name for a digest: its first eight bytes in hexadecimal, a dot
/// and the extension.
pub fn digest_file_name(digest: &[u8], extension: &str) -> (name: String)
    requires
        digest@.len() >= 8,
    ensures
        name@ == hex_of(digest@).take(16) + "."@ + extension@,
{
    let hash_hex = hex_encode(digest);
    proof {
        lemma_hex_len(digest@);
    }
    let mut name = hash_hex.as_str().substring_char(0, 16).to_owned();
    assert(name@ =~= hash_hex@.take(16));
    name.append(".");
    name.append(extension);
    name
}

/// The file name under which an icon with this content is stored.
pub fn icon_file_name(bytes: &[u8], extension: &str) -> (name: String)
    ensures
        name@ == icon_name(bytes@, extension@),
{
    let digest = sha256_digest(bytes);
    digest_file_name(digest.as_slice(), extension)
}

/// The file name under which a downloaded icon is stored: `content_type` is
/// the content type of the answer that brought it, where it had one, and
/// `url` the address it came from.
pub fn favicon_file_name(bytes: &[u8], content_type: Option<&str>, url: &str) -> (name: String)
    ensures
        name@ == icon_name(bytes@, favicon_extension(text_of(content_type), url@)),
{
    let extension = match get_extension_from_headers(content_type) {
        Some(extension) => extension,
        None => match get_extension_from_url(url) {
            Some(extension) => extension,
            None => "png",
        },
    };
    icon_file_name(bytes, extension)
}

/// The file name under which an uploaded icon is stored: `extension` is the
/// extension of the uploaded file, where it has one.
pub fn uploaded_icon_file_name(bytes: &[u8], extension: Option<&str>) -> (name: String)
    ensures
        name@ == icon_name(bytes@, uploaded_extension(text_of(extension))),
{
    let extension = match extension {
        Some(given) => to_lowercase(given),
        None => "png".to_owned(),
    };
    icon_file_name(bytes, extension.as_str())
}

/// The address that the first element matching `selector` links to: its
/// `href`, without surrounding white space, where that leaves anything.
pub open spec fn icon_href(page: Page, selector: Seq<char>) -> Option<Seq<char>> {
    match page_match(page, selector) {
        Some(path) => {
            let attrs = descend(page.tree, path).attrs;
            if attrs.contains_key("href"@) && !is_blank(attrs["href"@]) {
                Some(trimmed(attrs["href"@]))
            } else {
                None
            }
        },
        None => None,
    }
}

/// The absolute address of the icon that the first element matching
/// `selector` links to, read against `base`.
pub open spec fn linked_icon(page: Page, base: Seq<char>, selector: Seq<char>) -> Option<
    Seq<char>,
> {
    match icon_href(page, selector) {
        Some(href) => joined(base, href),
        None => None,
    }
}

/// The address of a page's icon. The page names it in a `<link>` with
/// `rel` `icon`, `apple-touch-icon` or `shortcut icon`, tried in this order;
/// a page that names none has it at `/favicon.ico`. Without a base that is
/// an absolute URL there is no address.
pub open spec fn favicon_url(page: Page, base_url: Seq<char>) -> Option<Seq<char>> {
    match parsed_url(base_url) {
        Some(base) => {
            if linked_icon(page, base, "link[rel='icon']"@) is Some {
                linked_icon(page, base, "link[rel='icon']"@)
            } else if linked_icon(page, base, "link[rel='apple-touch-icon']"@) is Some {
                linked_icon(page, base, "link[rel='apple-touch-icon']"@)
            } else if linked_icon(page, base, "link[rel='shortcut icon']"@) is Some {
                linked_icon(page, base, "link[rel='shortcut icon']"@)
            } else {
                joined(base, "/favicon.ico"@)
            }
        },
        None => None,
    }
}

fn linked_icon_of(document: &scraper::Html, base_url: &url::Url, selector: &str) -> (r: Option<
    String,
>)
    ensures
        match r {
            Some(address) => linked_icon(html_page(*document), url_text(*base_url), selector@)
                == Some(address@),
            None => linked_icon(html_page(*document), url_text(*base_url), selector@) is None,
        },
{
    match select_in_document(document, selector) {
        Some(element) => match attribute(element, "href") {
            Some(href) => {
                let reference = trim(href.as_str());
                if reference.is_empty() {
                    None
                } else {
                    match url_join(base_url, reference) {
                        Some(absolute_url) => Some(url_string(&absolute_url)),
                        None => None,
                    }
                }
            },
            None => None,
        },
        None => None,
    }
}

/// The address of the icon of a parsed page that was fetched from
/// `base_url_str`.
pub fn find_favicon_url(document: &scraper::Html, base_url_str: &str) -> (r: Option<String>)
    ensures
        match r {
            Some(address) => favicon_url(html_page(*document), base_url_str@) == Some(address@),
            None => favicon_url(html_page(*document), base_url_str@) is None,
        },
{
    let base_url = match parse_url(base_url_str) {
        Some(base_url) => base_url,
        None => {
            return None;
        },
    };
    match linked_icon_of(document, &base_url, "link[rel='icon']") {
        Some(address) => {
            return Some(address);
        },
        None => {},
    }
    match linked_icon_of(document, &base_url, "link[rel='apple-touch-icon']") {
        Some(address) => {
            return Some(address);
        },
        None => {},
    }
    match linked_icon_of(document, &base_url, "link[rel='shortcut icon']") {
        Some(address) => {
            return Some(address);
        },
        None => {},
    }
    match url_join(&base_url, "/favicon.ico") {
        Some(address) => Some(url_string(&address)),
        None => None,
    }
}

/// The content of a page's first `<title>`, without surrounding white space.
pub open spec fn page_title(page: Page) -> Option<Seq<char>> {
    match page_match(page, "title"@) {
        Some(path) => Some(trimmed(descend(page.tree, path).inner_html)),
        None => None,
    }
}

/// The text is an absolute URL that names a host.
pub open spec fn has_host(url: Seq<char>) -> bool {
    named_host(url) is Some
}

/// The host that an address names, if it is an absolute URL with a host.
pub open spec fn named_host(url: Seq<char>) -> Option<Seq<char>> {
    match parsed_host(url) {
        Some(host) => host,
        None => None,
    }
}

/// A page has a title to show unless its `<title>` is empty and the address
/// it came from names no host to show in its place.
pub open spec fn has_shown_title(page: Page, base_url: Seq<char>) -> bool {
    match page_title(page) {
        Some(title) => title.len() == 0 ==> has_host(base_url),
        None => true,
    }
}

/// The title to show for a page: its own where it has one that is not empty;
/// for an empty one, the host of the address the page came from; none for a
/// page without a `<title>`.
pub open spec fn shown_title(page: Page, base_url: Seq<char>) -> Option<Seq<char>> {
    match page_title(page) {
        Some(title) => if title.len() == 0 {
            named_host(base_url)
        } else {
            Some(title)
        },
        None => None,
    }
}

fn title_of(document: &scraper::Html) -> (r: Option<String>)
    ensures
        match r {
            Some(title) => page_title(html_page(*document)) == Some(title@),
            None => page_title(html_page(*document)) is None,
        },
{
    match select_in_document(document, "title") {
        Some(element) => Some(trim(inner_html(element).as_str()).to_owned()),
        None => None,
    }
}

fn host_of_address(url: &str) -> (r: Option<String>)
    ensures
        host_text(r) == named_host(url@),
{
    match address_host(url) {
        Some(host) => host,
        None => None,
    }
}

/// The title and the icon address of a parsed page that was fetched from
/// `base_url`. A page whose `<title>` is empty is shown under the host of
/// its address, so such a page must come with an address that names one.
pub fn document_metadata(document: &scraper::Html, base_url: &str) -> (r: (
    Option<String>,
    Option<String>,
))
    requires
        has_shown_title(html_page(*document), base_url@),
    ensures
        match r.0 {
            Some(title) => shown_title(html_page(*document), base_url@) == Some(title@),
            None => shown_title(html_page(*document), base_url@) is None,
        },
        match r.1 {
            Some(address) => favicon_url(html_page(*document), base_url@) == Some(address@),
            None => favicon_url(html_page(*document), base_url@) is None,
        },
{
    let title = match title_of(document) {
        Some(title) => {
            if title.as_str().is_empty() {
                host_of_address(base_url)
            } else {
                Some(title)
            }
        },
        None => None,
    };
    let favicon_url = find_favicon_url(document, base_url);
    (title, favicon_url)
}

/// The title and the icon address of the page with the given markup, fetched
/// from `base_url`; `None` where the page's `<title>` is empty and the
/// address names no host to show in its place.
pub fn parse_metadata_from_body(body: &str, base_url: &str) -> (r: Option<
    (Option<String>, Option<String>),
>)
    ensures
        r is Some <==> has_shown_title(parsed_page(body@), base_url@),
        r matches Some(found) ==> {
            &&& match found.0 {
                Some(title) => shown_title(parsed_page(body@), base_url@) == Some(title@),
                None => shown_title(parsed_page(body@), base_url@) is None,
            }
            &&& match found.1 {
                Some(address) => favicon_url(parsed_page(body@), base_url@) == Some(address@),
                None => favicon_url(parsed_page(body@), base_url@) is None,
            }
        },
{
    let document = parse_document(body);
    let shown = match title_of(&document) {
        Some(title) => !title.as_str().is_empty() || host_of_address(base_url).is_some(),
        None => true,
    };
    if shown {
        Some(document_metadata(&document, base_url))
    } else {
        None
    }
}

} // verus!

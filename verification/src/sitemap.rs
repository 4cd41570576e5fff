//! The sitemap of a site: one `url` element for each page that is no draft,
//! in the order of the page collection.

use crate::config::Config;
use crate::content::{Page, PageView};
use crate::feeds::{lemma_published_step, link_for, page_link, page_views, published};
use crate::text::same_text;
use crate::time::formatted_text;
use quick_xml::events::{BytesDecl, BytesEnd, BytesStart, BytesText, Event};
use quick_xml::Writer;
use vstd::prelude::*;
use vstd::string::StringExecFns;

verus! {

/// The namespace that the root element of a sitemap declares.
pub const SITEMAP_NAMESPACE: &'static str = "http://www.sitemaps.org/schemas/sitemap/0.9";

/// How one character of text stands in an XML document: the five markup
/// characters and the carriage return as references, any other as itself.
pub open spec fn escaped_char(c: char) -> Seq<char> {
    if c == '<' {
        seq!['&', 'l', 't', ';']
    } else if c == '>' {
        seq!['&', 'g', 't', ';']
    } else if c == '&' {
        seq!['&', 'a', 'm', 'p', ';']
    } else if c == '\'' {
        seq!['&', 'a', 'p', 'o', 's', ';']
    } else if c == '"' {
        seq!['&', 'q', 'u', 'o', 't', ';']
    } else if c == '\r' {
        seq!['&', '#', '1', '3', ';']
    } else {
        seq![c]
    }
}

/// How text stands in an XML document, character by character.
pub open spec fn escaped(text: Seq<char>) -> Seq<char>
    decreases text.len(),
{
    if text.len() == 0 {
        Seq::empty()
    } else {
        escaped(text.drop_last()) + escaped_char(text.last())
    }
}

/// How one character of an attribute's value stands in an XML document: as in
/// text, and the line feed and the tabulator as references too.
pub open spec fn escaped_attribute_char(c: char) -> Seq<char> {
    if c == '\n' {
        seq!['&', '#', '1', '0', ';']
    } else if c == '\t' {
        seq!['&', '#', '9', ';']
    } else {
        escaped_char(c)
    }
}

/// How the value of an attribute stands in an XML document, character by
/// character.
pub open spec fn escaped_attribute(value: Seq<char>) -> Seq<char>
    decreases value.len(),
{
    if value.len() == 0 {
        Seq::empty()
    } else {
        escaped_attribute(value.drop_last()) + escaped_attribute_char(value.last())
    }
}

/// The XML declaration of a document in `version` and `encoding`.
pub open spec fn declaration(version: Seq<char>, encoding: Seq<char>) -> Seq<char> {
    "<?xml version=\""@ + version + "\" encoding=\""@ + encoding + "\"?>"@
}

/// The tag that opens the element `name`.
pub open spec fn start_tag(name: Seq<char>) -> Seq<char> {
    seq!['<'] + name + seq!['>']
}

/// The tag that opens the element `name` with one attribute.
pub open spec fn start_tag_with(name: Seq<char>, key: Seq<char>, value: Seq<char>) -> Seq<char> {
    seq!['<'] + name + seq![' '] + key + seq!['=', '"'] + escaped_attribute(value) + seq![
        '"',
        '>',
    ]
}

/// The tag that closes the element `name`.
pub open spec fn end_tag(name: Seq<char>) -> Seq<char> {
    seq!['<', '/'] + name + seq!['>']
}

/// The element `name` with `text` as its content.
pub open spec fn text_element(name: Seq<char>, text: Seq<char>) -> Seq<char> {
    start_tag(name) + escaped(text) + end_tag(name)
}

/// The priority of a page in the sitemap: the page with slug `index` comes
/// first.
pub open spec fn priority_of(slug: Seq<char>) -> Seq<char> {
    if slug == "index"@ {
        "1.0"@
    } else {
        "0.8"@
    }
}

/// The `lastmod` element of a page: the day of its date, and nothing where
/// it has no date.
pub open spec fn lastmod_of(page: PageView) -> Seq<char> {
    match page.front_matter.date {
        Some(date) => text_element(
            "lastmod"@,
            formatted_text(date.spec_seconds(), date.spec_nanoseconds(), "%Y-%m-%d"@),
        ),
        None => Seq::empty(),
    }
}

/// The `url` element of a page: its address, the day of its date where it
/// has one, `weekly` as frequency of change, and its priority.
pub open spec fn url_element(page: PageView, url: Seq<char>) -> Seq<char> {
    start_tag("url"@) + text_element("loc"@, page_link(url, page.slug)) + lastmod_of(page)
        + text_element("changefreq"@, "weekly"@) + text_element(
        "priority"@,
        priority_of(page.slug),
    ) + end_tag("url"@)
}

/// The `url` elements of `listed`, one after the other.
pub open spec fn url_elements(listed: Seq<PageView>, url: Seq<char>) -> Seq<char>
    decreases listed.len(),
{
    if listed.len() == 0 {
        Seq::empty()
    } else {
        url_elements(listed.drop_last(), url) + url_element(listed.last(), url)
    }
}

/// The sitemap of a site: the XML declaration, and in a `urlset` element
/// that declares the sitemap namespace one `url` element for each published
/// page.
pub open spec fn sitemap_document(pages: Seq<PageView>, url: Seq<char>) -> Seq<char> {
    declaration("1.0"@, "UTF-8"@) + start_tag_with("urlset"@, "xmlns"@, SITEMAP_NAMESPACE@)
        + url_elements(published(pages), url) + end_tag("urlset"@)
}

/// Writes `quick_xml::events::BytesDecl::new(version, Some(encoding), None)`
/// with `quick_xml::Writer::write_event` into an empty `Vec<u8>`, which takes
/// every write. The writer puts the declaration between `<?` and `?>`; the
/// declaration names version and encoding in double quotes, as they are given.
#[verifier::external_body]
fn xml_declaration(version: &str, encoding: &str) -> (xml: String)
    ensures
        xml@ == declaration(version@, encoding@),
{
    let mut writer = Writer::new(Vec::new());
    let _ = writer.write_event(Event::Decl(BytesDecl::new(version, Some(encoding), None)));
    String::from_utf8(writer.into_inner()).unwrap_or_default()
}

/// Writes `quick_xml::events::BytesStart::new(name)` as a start event with
/// `Writer::write_event` into an empty `Vec<u8>`: the name as it is given,
/// between `<` and `>`.
#[verifier::external_body]
fn xml_start(name: &str) -> (xml: String)
    ensures
        xml@ == start_tag(name@),
{
    let mut writer = Writer::new(Vec::new());
    let _ = writer.write_event(Event::Start(BytesStart::new(name)));
    String::from_utf8(writer.into_inner()).unwrap_or_default()
}

/// Writes a `BytesStart` with one attribute, added by
/// `BytesStart::push_attribute`, as a start event into an empty `Vec<u8>`.
/// The attribute follows the name after a blank: its key as it is given, `=`,
/// and in double quotes its value, escaped as `quick_xml` escapes attribute
/// values.
#[verifier::external_body]
fn xml_start_with(name: &str, key: &str, value: &str) -> (xml: String)
    ensures
        xml@ == start_tag_with(name@, key@, value@),
{
    let mut start = BytesStart::new(name);
    start.push_attribute((key, value));
    let mut writer = Writer::new(Vec::new());
    let _ = writer.write_event(Event::Start(start));
    String::from_utf8(writer.into_inner()).unwrap_or_default()
}

/// Writes `quick_xml::events::BytesText::new(text)` as a text event into an
/// empty `Vec<u8>`: the text, escaped by `quick_xml::escape::escape`.
#[verifier::external_body]
fn xml_text(text: &str) -> (xml: String)
    ensures
        xml@ == escaped(text@),
{
    let mut writer = Writer::new(Vec::new());
    let _ = writer.write_event(Event::Text(BytesText::new(text)));
    String::from_utf8(writer.into_inner()).unwrap_or_default()
}

/// Writes `quick_xml::events::BytesEnd::new(name)` as an end event into an
/// empty `Vec<u8>`: the name as it is given, between `</` and `>`.
#[verifier::external_body]
fn xml_end(name: &str) -> (xml: String)
    ensures
        xml@ == end_tag(name@),
{
    let mut writer = Writer::new(Vec::new());
    let _ = writer.write_event(Event::End(BytesEnd::new(name)));
    String::from_utf8(writer.into_inner()).unwrap_or_default()
}

/// Appends the element `name` with content `text` to `document`.
fn push_text_element(document: &mut String, name: &str, text: &str)
    ensures
        final(document)@ == old(document)@ + text_element(name@, text@),
{
    let start = xml_start(name);
    let content = xml_text(text);
    let end = xml_end(name);
    document.append(start.as_str());
    document.append(content.as_str());
    document.append(end.as_str());
    assert(document@ =~= old(document)@ + text_element(name@, text@));
}

/// Appends the `url` element of `page` to `document`.
fn push_url_element(document: &mut String, page: &Page, url: &str)
    ensures
        final(document)@ == old(document)@ + url_element(page@, url@),
{
    let open = xml_start("url");
    document.append(open.as_str());
    let link = link_for(url, page.slug.as_str());
    push_text_element(document, "loc", link.as_str());
    match page.front_matter.date {
        Some(date) => {
            let day = date.to_date();
            push_text_element(document, "lastmod", day.as_str());
        },
        None => {},
    }
    push_text_element(document, "changefreq", "weekly");
    let priority = if same_text(page.slug.as_str(), "index") {
        "1.0"
    } else {
        "0.8"
    };
    push_text_element(document, "priority", priority);
    let close = xml_end("url");
    document.append(close.as_str());
    assert(document@ =~= old(document)@ + url_element(page@, url@));
}

/// The sitemap of the site, as the text of `sitemap.xml`.
///
/// Each page that is no draft gives one `url` element, in the order of
/// `pages`: `loc` is the page's address, `lastmod` the day of its date and
/// left out where it has none, `changefreq` is `weekly`, and `priority` is
/// `1.0` for the slug `index` and `0.8` for any other. The root element
/// declares the sitemap namespace.
pub fn generate(pages: &[&Page], config: &Config) -> (document: String)
    ensures
        document@ == sitemap_document(page_views(pages@), config.site.url@),
{
    let ghost views = page_views(pages@);
    let ghost url = config.site.url@;
    let mut document = xml_declaration("1.0", "UTF-8");
    let root = xml_start_with("urlset", "xmlns", SITEMAP_NAMESPACE);
    document.append(root.as_str());
    let ghost head = document@;
    let mut i: usize = 0;
    assert(views.take(0) =~= Seq::<PageView>::empty());
    assert(published(views.take(0)) =~= Seq::<PageView>::empty()) by {
        reveal(Seq::filter);
    }
    assert(document@ =~= head + url_elements(published(views.take(0)), url));
    while i < pages.len()
        invariant
            i <= pages.len(),
            views == page_views(pages@),
            url == config.site.url@,
            head == declaration("1.0"@, "UTF-8"@) + start_tag_with(
                "urlset"@,
                "xmlns"@,
                SITEMAP_NAMESPACE@,
            ),
            document@ == head + url_elements(published(views.take(i as int)), url),
        decreases pages.len() - i,
    {
        let page = pages[i];
        proof {
            lemma_published_step(views, i as int);
            assert(views[i as int] == page@);
        }
        if !page.front_matter.draft {
            push_url_element(&mut document, page, config.site.url.as_str());
            proof {
                let listed = published(views.take(i as int));
                assert(listed.push(page@).drop_last() =~= listed);
                assert(document@ =~= head + url_elements(listed.push(page@), url));
            }
        }
        i += 1;
    }
    assert(views.take(pages.len() as int) =~= views);
    let close = xml_end("urlset");
    document.append(close.as_str());
    assert(document@ =~= sitemap_document(views, url));
    document
}

} // verus!

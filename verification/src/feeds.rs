//! The RSS and Atom feeds of a site: one item for each page that is no
//! draft, in the order of the page collection.

use crate::config::Config;
use crate::content::{Page, PageView};
use crate::text::{join3, lemma_filter_step};
use crate::time::{rfc2822_text, Timestamp};
use atom_syndication::{Entry, Feed, Link, Person};
use rss::{ChannelBuilder, ItemBuilder};
use vstd::prelude::*;

verus! {

/// The address of the page with slug `slug` on the site at `url`.
pub open spec fn page_link(url: Seq<char>, slug: Seq<char>) -> Seq<char> {
    url + seq!['/'] + slug
}

/// What the pages of a collection hold, in order.
pub open spec fn page_views(pages: Seq<&Page>) -> Seq<PageView> {
    pages.map_values(|page: &Page| page@)
}

/// The pages of a collection that feeds and sitemap list: those that are no
/// drafts, in their order.
pub open spec fn published(pages: Seq<PageView>) -> Seq<PageView> {
    pages.filter(|page: PageView| !page.front_matter.draft)
}

/// Listing the first `n + 1` pages is listing the first `n` and then, if it
/// is no draft, the next.
pub proof fn lemma_published_step(pages: Seq<PageView>, n: int)
    requires
        0 <= n < pages.len(),
    ensures
        published(pages.take(n + 1)) == if pages[n].front_matter.draft {
            published(pages.take(n))
        } else {
            published(pages.take(n)).push(pages[n])
        },
{
    lemma_filter_step(pages, |page: PageView| !page.front_matter.draft, n);
}

/// A draft is listed nowhere: with or without it, the same pages are
/// published.
pub proof fn lemma_draft_not_published(before: Seq<PageView>, draft: PageView, after: Seq<PageView>)
    requires
        draft.front_matter.draft,
    ensures
        published(before + seq![draft] + after) == published(before + after),
{
    let keep = |page: PageView| !page.front_matter.draft;
    Seq::filter_distributes_over_add(before + seq![draft], after, keep);
    Seq::filter_distributes_over_add(before, seq![draft], keep);
    Seq::filter_distributes_over_add(before, after, keep);
    reveal(Seq::filter);
    assert(seq![draft].drop_last() =~= Seq::<PageView>::empty());
    assert(Seq::<PageView>::empty().filter(keep) =~= Seq::<PageView>::empty());
    assert(seq![draft].last() == draft);
    assert(seq![draft].filter(keep) =~= Seq::<PageView>::empty());
    assert(before.filter(keep) + Seq::<PageView>::empty() =~= before.filter(keep));
}

/// The published pages are the pages that are no drafts: each of them is one
/// of the collection and no draft, and each page of the collection that is no
/// draft is among them.
pub proof fn lemma_published_are_not_drafts(pages: Seq<PageView>)
    ensures
        forall|i: int|
            0 <= i < published(pages).len() ==> !(#[trigger] published(pages)[i]).front_matter.draft
                && pages.contains(published(pages)[i]),
        forall|j: int|
            0 <= j < pages.len() && !(#[trigger] pages[j]).front_matter.draft ==> published(
                pages,
            ).contains(pages[j]),
        published(pages).len() <= pages.len(),
{
    let keep = |page: PageView| !page.front_matter.draft;
    pages.lemma_filter_len(keep);
    assert forall|i: int| 0 <= i < published(pages).len() implies !(#[trigger] published(
        pages,
    )[i]).front_matter.draft && pages.contains(published(pages)[i]) by {
        pages.lemma_filter_pred(keep, i);
        assert(pages.filter(keep).contains(pages.filter(keep)[i]));
        pages.lemma_filter_contains_rev(keep, pages.filter(keep)[i]);
    }
    assert forall|j: int|
        0 <= j < pages.len() && !(#[trigger] pages[j]).front_matter.draft implies published(
        pages,
    ).contains(pages[j]) by {
        pages.lemma_filter_contains(keep, j);
    }
}

/// The address of the page with slug `slug` on the site at `url`: the two
/// with a slash between them, the address taken as it is written.
pub fn link_for(url: &str, slug: &str) -> (link: String)
    ensures
        link@ == page_link(url@, slug@),
{
    proof {
        reveal_strlit("/");
        assert("/"@ =~= seq!['/']);
    }
    join3(url, "/", slug)
}

/// One item of an RSS channel.
#[derive(Debug, Clone)]
pub struct RssItem {
    pub title: String,
    pub description: String,
    pub link: String,
    pub pub_date: Option<String>,
}

/// What an `RssItem` holds.
pub struct RssItemView {
    pub title: Seq<char>,
    pub description: Seq<char>,
    pub link: Seq<char>,
    pub pub_date: Option<Seq<char>>,
}

impl View for RssItem {
    type V = RssItemView;

    open spec fn view(&self) -> RssItemView {
        RssItemView {
            title: self.title@,
            description: self.description@,
            link: self.link@,
            pub_date: match self.pub_date {
                Some(text) => Some(text@),
                None => None,
            },
        }
    }
}

/// An RSS channel with its items.
#[derive(Debug, Clone)]
pub struct RssChannel {
    pub title: String,
    pub link: String,
    pub description: String,
    pub language: String,
    pub items: Vec<RssItem>,
}

/// What an `RssChannel` holds.
pub struct RssChannelView {
    pub title: Seq<char>,
    pub link: Seq<char>,
    pub description: Seq<char>,
    pub language: Seq<char>,
    pub items: Seq<RssItemView>,
}

impl View for RssChannel {
    type V = RssChannelView;

    open spec fn view(&self) -> RssChannelView {
        RssChannelView {
            title: self.title@,
            link: self.link@,
            description: self.description@,
            language: self.language@,
            items: self.items@.map_values(|item: RssItem| item@),
        }
    }
}

/// The RSS item of a page: its title, its description, its address, and its
/// date after RFC 2822 where it has one.
pub open spec fn rss_item_of(page: PageView, url: Seq<char>) -> RssItemView {
    RssItemView {
        title: page.front_matter.title,
        description: page.front_matter.description,
        link: page_link(url, page.slug),
        pub_date: match page.front_matter.date {
            Some(date) => Some(rfc2822_text(date.spec_seconds(), date.spec_nanoseconds())),
            None => None,
        },
    }
}

/// The RSS channel of a site: its title, address, description and language,
/// and one item for each published page.
pub open spec fn rss_channel_of(pages: Seq<PageView>, config: Config) -> RssChannelView {
    RssChannelView {
        title: config.site.title@,
        link: config.site.url@,
        description: config.site.description@,
        language: config.site.language@,
        items: published(pages).map_values(|page: PageView| rss_item_of(page, config.site.url@)),
    }
}

/// The RSS 2.0 document of a channel.
pub uninterp spec fn rss_document(channel: RssChannelView) -> Seq<char>;

/// Builds one `rss::Item` for each item with `rss::ItemBuilder` (title,
/// description, link and publication date set, the rest at its default), a
/// `rss::Channel` with `rss::ChannelBuilder` (title, link, description,
/// language and items set), and writes it out with `Channel::to_string`. The
/// document is a function of what the channel holds.
#[verifier::external_body]
fn rss_xml(channel: &RssChannel) -> (xml: String)
    ensures
        xml@ == rss_document(channel@),
{
    let items: Vec<rss::Item> = channel.items.iter().map(|item|
        ItemBuilder::default()
            .title(Some(item.title.clone()))
            .description(Some(item.description.clone()))
            .link(Some(item.link.clone()))
            .pub_date(item.pub_date.clone())
            .build()).collect();
    ChannelBuilder::default()
        .title(&channel.title)
        .link(&channel.link)
        .description(&channel.description)
        .language(Some(channel.language.clone()))
        .items(items)
        .build()
        .to_string()
}

/// The RSS channel of the site: one item for each page that is no draft, in
/// the order of `pages`.
pub fn rss_channel(pages: &[&Page], config: &Config) -> (channel: RssChannel)
    ensures
        channel@ == rss_channel_of(page_views(pages@), *config),
{
    let ghost views = page_views(pages@);
    let ghost url = config.site.url@;
    let ghost item_of = |page: PageView| rss_item_of(page, url);
    let ghost model = |item: RssItem| item@;
    let mut items: Vec<RssItem> = Vec::new();
    let mut i: usize = 0;
    assert(views.take(0) =~= Seq::<PageView>::empty());
    assert(published(views.take(0)) =~= Seq::<PageView>::empty()) by {
        reveal(Seq::filter);
    }
    while i < pages.len()
        invariant
            i <= pages.len(),
            views == page_views(pages@),
            url == config.site.url@,
            item_of == |page: PageView| rss_item_of(page, url),
            model == |item: RssItem| item@,
            items@.map_values(model) == published(views.take(i as int)).map_values(item_of),
        decreases pages.len() - i,
    {
        let page = pages[i];
        proof {
            lemma_published_step(views, i as int);
            assert(views[i as int] == page@);
        }
        if !page.front_matter.draft {
            let pub_date = match page.front_matter.date {
                Some(date) => Some(date.to_rfc2822()),
                None => None,
            };
            let item = RssItem {
                title: page.front_matter.title.clone(),
                description: page.front_matter.description.clone(),
                link: link_for(config.site.url.as_str(), page.slug.as_str()),
                pub_date,
            };
            let ghost before = items@;
            items.push(item);
            assert(items@.map_values(model) =~= before.map_values(model).push(item@));
            assert(published(views.take(i + 1)).map_values(item_of) =~= published(
                views.take(i as int),
            ).map_values(item_of).push(item_of(page@)));
        }
        i += 1;
    }
    assert(views.take(pages.len() as int) =~= views);
    RssChannel {
        title: config.site.title.clone(),
        link: config.site.url.clone(),
        description: config.site.description.clone(),
        language: config.site.language.clone(),
        items,
    }
}

/// The RSS 2.0 feed of the site, as the text of `feed.xml`.
///
/// The channel takes title, link, description and language from the site
/// configuration. Each page that is no draft gives one item, in the order of
/// `pages`: title, description, link, and the date after RFC 2822 where the
/// page has one. An empty collection gives a channel without items.
pub fn generate_rss(pages: &[&Page], config: &Config) -> (document: String)
    ensures
        document@ == rss_document(rss_channel_of(page_views(pages@), *config)),
{
    let channel = rss_channel(pages, config);
    rss_xml(&channel)
}

/// One entry of an Atom feed.
#[derive(Debug, Clone)]
pub struct AtomEntry {
    pub title: String,
    pub id: String,
    pub updated: Timestamp,
    pub link: String,
    pub summary: String,
}

/// What an `AtomEntry` holds.
pub struct AtomEntryView {
    pub title: Seq<char>,
    pub id: Seq<char>,
    pub updated: Timestamp,
    pub link: Seq<char>,
    pub summary: Seq<char>,
}

impl View for AtomEntry {
    type V = AtomEntryView;

    open spec fn view(&self) -> AtomEntryView {
        AtomEntryView {
            title: self.title@,
            id: self.id@,
            updated: self.updated,
            link: self.link@,
            summary: self.summary@,
        }
    }
}

/// What heads an Atom feed: all of it but its entries.
#[derive(Debug, Clone)]
pub struct AtomHead {
    pub title: String,
    pub id: String,
    pub updated: Timestamp,
    pub author: String,
    pub link: String,
}

/// What an `AtomHead` holds.
pub struct AtomHeadView {
    pub title: Seq<char>,
    pub id: Seq<char>,
    pub updated: Timestamp,
    pub author: Seq<char>,
    pub link: Seq<char>,
}

impl View for AtomHead {
    type V = AtomHeadView;

    open spec fn view(&self) -> AtomHeadView {
        AtomHeadView {
            title: self.title@,
            id: self.id@,
            updated: self.updated,
            author: self.author@,
            link: self.link@,
        }
    }
}

/// The Atom entry of a page: its title, its address as identifier and as
/// link, its description as summary, and as time of its last change its date,
/// or `now` where it has none.
pub open spec fn atom_entry_of(page: PageView, url: Seq<char>, now: Timestamp) -> AtomEntryView {
    AtomEntryView {
        title: page.front_matter.title,
        id: page_link(url, page.slug),
        updated: match page.front_matter.date {
            Some(date) => date,
            None => now,
        },
        link: page_link(url, page.slug),
        summary: page.front_matter.description,
    }
}

/// The head of the Atom feed of a site at the time `now`: its title, its
/// address as identifier and as link, `now` as time of its last change, and
/// its author.
pub open spec fn atom_head_of(config: Config, now: Timestamp) -> AtomHeadView {
    AtomHeadView {
        title: config.site.title@,
        id: config.site.url@,
        updated: now,
        author: config.site.author@,
        link: config.site.url@,
    }
}

/// The entries of the Atom feed of a site at the time `now`: one for each
/// published page.
pub open spec fn atom_entries_of(pages: Seq<PageView>, config: Config, now: Timestamp) -> Seq<
    AtomEntryView,
> {
    published(pages).map_values(|page: PageView| atom_entry_of(page, config.site.url@, now))
}

/// `atom_syndication::Feed`, the feed as the outside crate holds it. What it
/// holds is spoken of through `feed_head`, `feed_entries` and `feed_is_plain`.
#[verifier::external_type_specification]
#[verifier::external_body]
pub struct ExAtomFeed(atom_syndication::Feed);

/// The head of an `atom_syndication::Feed`: its title, identifier, time of
/// last change, the name of its one author and the address of its one link.
pub uninterp spec fn feed_head(feed: Feed) -> AtomHeadView;

/// The entries of an `atom_syndication::Feed`, in order: of each its title,
/// identifier, time of last change, the address of its one link and its
/// summary.
pub uninterp spec fn feed_entries(feed: Feed) -> Seq<AtomEntryView>;

/// Whether the feed holds nothing but its head and its entries: one author
/// and one link, each entry with one link, and everything else, of the feed
/// and of each entry, as `Default` makes it.
pub uninterp spec fn feed_is_plain(feed: Feed) -> bool;

/// The Atom 1.0 document of a plain feed with this head and these entries.
pub uninterp spec fn atom_document(head: AtomHeadView, entries: Seq<AtomEntryView>) -> Seq<char>;

/// Fills an `atom_syndication::Feed` with title, id, time of last change,
/// one `Person` as author and one `Link`, and leaves the rest at its default:
/// the feed has no entries. The time goes through
/// `chrono::DateTime::from_timestamp`, which returns `Some` on every
/// `Timestamp`.
#[verifier::external_body]
fn atom_open(head: &AtomHead) -> (feed: Feed)
    ensures
        feed_head(feed) == head@,
        feed_entries(feed) == Seq::<AtomEntryView>::empty(),
        feed_is_plain(feed),
{
    Feed {
        title: head.title.clone().into(),
        id: head.id.clone(),
        updated: chrono::DateTime::from_timestamp(head.updated.seconds(), head.updated.nanoseconds()).unwrap().into(),
        authors: vec![Person { name: head.author.clone(), ..Default::default() }],
        links: vec![Link { href: head.link.clone(), ..Default::default() }],
        ..Default::default()
    }
}

/// Pushes one `atom_syndication::Entry` onto the entries of the feed, filled
/// with title, id, time of last change, one `Link` and the summary, the rest
/// at its default. Nothing else of the feed changes, so a plain feed stays
/// plain.
#[verifier::external_body]
fn atom_push(feed: &mut Feed, entry: &AtomEntry)
    ensures
        feed_head(*final(feed)) == feed_head(*old(feed)),
        feed_entries(*final(feed)) == feed_entries(*old(feed)).push(entry@),
        feed_is_plain(*old(feed)) ==> feed_is_plain(*final(feed)),
{
    feed.entries.push(Entry {
        title: entry.title.clone().into(),
        id: entry.id.clone(),
        updated: chrono::DateTime::from_timestamp(entry.updated.seconds(), entry.updated.nanoseconds()).unwrap().into(),
        links: vec![Link { href: entry.link.clone(), ..Default::default() }],
        summary: Some(entry.summary.clone().into()),
        ..Default::default()
    });
}

/// Calls `Feed::to_string`, which writes the feed out as Atom 1.0. The
/// document is a function of what the feed holds; of a plain feed, that is
/// its head and its entries.
#[verifier::external_body]
fn atom_write(feed: &Feed) -> (xml: String)
    requires
        feed_is_plain(*feed),
    ensures
        xml@ == atom_document(feed_head(*feed), feed_entries(*feed)),
{
    feed.to_string()
}

/// The Atom 1.0 feed of the site, as the text of `atom.xml`, generated at
/// the time `now`.
///
/// The feed takes its title and its author from the site configuration, the
/// site's address as identifier and as link, and `now` as the time of its
/// last change. Each page that is no draft gives one entry, in the order of
/// `pages`; a page without date counts as changed at `now`. An empty
/// collection gives a feed without entries.
pub fn generate_atom(pages: &[&Page], config: &Config, now: Timestamp) -> (document: String)
    ensures
        document@ == atom_document(
            atom_head_of(*config, now),
            atom_entries_of(page_views(pages@), *config, now),
        ),
{
    let ghost views = page_views(pages@);
    let ghost url = config.site.url@;
    let ghost entry_of = |page: PageView| atom_entry_of(page, url, now);
    let head = AtomHead {
        title: config.site.title.clone(),
        id: config.site.url.clone(),
        updated: now,
        author: config.site.author.clone(),
        link: config.site.url.clone(),
    };
    let mut feed = atom_open(&head);
    let mut i: usize = 0;
    assert(views.take(0) =~= Seq::<PageView>::empty());
    assert(published(views.take(0)) =~= Seq::<PageView>::empty()) by {
        reveal(Seq::filter);
    }
    assert(published(views.take(0)).map_values(entry_of) =~= Seq::<AtomEntryView>::empty());
    while i < pages.len()
        invariant
            i <= pages.len(),
            views == page_views(pages@),
            url == config.site.url@,
            entry_of == |page: PageView| atom_entry_of(page, url, now),
            feed_head(feed) == atom_head_of(*config, now),
            feed_is_plain(feed),
            feed_entries(feed) == published(views.take(i as int)).map_values(entry_of),
        decreases pages.len() - i,
    {
        let page = pages[i];
        proof {
            lemma_published_step(views, i as int);
            assert(views[i as int] == page@);
        }
        if !page.front_matter.draft {
            let updated = match page.front_matter.date {
                Some(date) => date,
                None => now,
            };
            let entry = AtomEntry {
                title: page.front_matter.title.clone(),
                id: link_for(config.site.url.as_str(), page.slug.as_str()),
                updated,
                link: link_for(config.site.url.as_str(), page.slug.as_str()),
                summary: page.front_matter.description.clone(),
            };
            atom_push(&mut feed, &entry);
            assert(published(views.take(i + 1)).map_values(entry_of) =~= published(
                views.take(i as int),
            ).map_values(entry_of).push(entry_of(page@)));
        }
        i += 1;
    }
    assert(views.take(pages.len() as int) =~= views);
    atom_write(&feed)
}

} // verus!

//! Feed and sitemap text: the XML documents built from the published
//! rows, proved to be exactly the concatenation the format prescribes.
//! The rows themselves come from storage; these builders take them as
//! plain values.

use vstd::prelude::*;
use vstd::string::StringExecFns;

verus! {

/// One published row of the feed: absent instants and excerpts render as
/// the empty string, as the storage layer hands them over.
pub struct RssItem {
    pub slug: String,
    pub title: String,
    pub excerpt: String,
    pub published_at: String,
}

/// One published row of the sitemap.
pub struct SitemapRow {
    pub slug: String,
    pub updated_at: String,
}

/// The `<item>` element of one row.
pub open spec fn spec_rss_item(site: Seq<char>, item: RssItem) -> Seq<char> {
    "<item><title><![CDATA["@ + item.title@ + "]]></title><link>"@ + site + "/posts/"@
        + item.slug@ + "</link><guid>"@ + site + "/posts/"@ + item.slug@ + "</guid><pubDate>"@
        + item.published_at@ + "</pubDate><description><![CDATA["@ + item.excerpt@
        + "]]></description></item>"@
}

/// The items in order.
pub open spec fn spec_rss_items(site: Seq<char>, items: Seq<RssItem>) -> Seq<char>
    decreases items.len(),
{
    if items.len() == 0 {
        Seq::empty()
    } else {
        spec_rss_items(site, items.drop_last()) + spec_rss_item(site, items.last())
    }
}

/// The whole feed document.
pub open spec fn spec_rss(site: Seq<char>, items: Seq<RssItem>) -> Seq<char> {
    "<?xml version=\"1.0\" encoding=\"utf-8\"?>\n<rss version=\"2.0\"><channel>\n<title>Blog RSS</title><link>"@
        + site + "</link><description>Feed</description>"@ + spec_rss_items(site, items)
        + "\n</channel></rss>"@
}

/// Build the feed document for the published rows, newest first as
/// handed over.
pub fn build_rss(items: &Vec<RssItem>, site_base: &String) -> (r: String)
    ensures
        r@ == spec_rss(site_base@, items@),
{
    let mut body = String::new();
    let mut i: usize = 0;
    while i < items.len()
        invariant
            0 <= i <= items@.len(),
            body@ == spec_rss_items(site_base@, items@.subrange(0, i as int)),
        decreases items@.len() - i,
    {
        body.append("<item><title><![CDATA[");
        body.append(items[i].title.as_str());
        body.append("]]></title><link>");
        body.append(site_base.as_str());
        body.append("/posts/");
        body.append(items[i].slug.as_str());
        body.append("</link><guid>");
        body.append(site_base.as_str());
        body.append("/posts/");
        body.append(items[i].slug.as_str());
        body.append("</guid><pubDate>");
        body.append(items[i].published_at.as_str());
        body.append("</pubDate><description><![CDATA[");
        body.append(items[i].excerpt.as_str());
        body.append("]]></description></item>");
        proof {
            let pre = items@.subrange(0, i as int);
            let cur = items@.subrange(0, i + 1 as int);
            assert(cur.drop_last() =~= pre);
            assert(cur.last() == items@[i as int]);
            assert(body@ =~= spec_rss_items(site_base@, cur));
        }
        i = i + 1;
    }
    proof {
        assert(items@.subrange(0, items@.len() as int) =~= items@);
    }
    let mut out = "<?xml version=\"1.0\" encoding=\"utf-8\"?>\n<rss version=\"2.0\"><channel>\n<title>Blog RSS</title><link>".to_owned();
    out.append(site_base.as_str());
    out.append("</link><description>Feed</description>");
    out.append(body.as_str());
    out.append("\n</channel></rss>");
    proof {
        assert(out@ =~= spec_rss(site_base@, items@));
    }
    out
}

/// The `<url>` element of one row.
pub open spec fn spec_sitemap_url(site: Seq<char>, row: SitemapRow) -> Seq<char> {
    "<url><loc>"@ + site + "/posts/"@ + row.slug@ + "</loc><lastmod>"@ + row.updated_at@
        + "</lastmod><changefreq>weekly</changefreq></url>"@
}

pub open spec fn spec_sitemap_urls(site: Seq<char>, rows: Seq<SitemapRow>) -> Seq<char>
    decreases rows.len(),
{
    if rows.len() == 0 {
        Seq::empty()
    } else {
        spec_sitemap_urls(site, rows.drop_last()) + spec_sitemap_url(site, rows.last())
    }
}

/// The whole sitemap document.
pub open spec fn spec_sitemap(site: Seq<char>, rows: Seq<SitemapRow>) -> Seq<char> {
    "<?xml version=\"1.0\" encoding=\"UTF-8\"?>\n<urlset xmlns=\"http://www.sitemaps.org/schemas/sitemap/0.9\">"@
        + spec_sitemap_urls(site, rows) + "</urlset>"@
}

/// Build the sitemap document for the published rows.
pub fn build_sitemap(rows: &Vec<SitemapRow>, site_base: &String) -> (r: String)
    ensures
        r@ == spec_sitemap(site_base@, rows@),
{
    let mut body = String::new();
    let mut i: usize = 0;
    while i < rows.len()
        invariant
            0 <= i <= rows@.len(),
            body@ == spec_sitemap_urls(site_base@, rows@.subrange(0, i as int)),
        decreases rows@.len() - i,
    {
        body.append("<url><loc>");
        body.append(site_base.as_str());
        body.append("/posts/");
        body.append(rows[i].slug.as_str());
        body.append("</loc><lastmod>");
        body.append(rows[i].updated_at.as_str());
        body.append("</lastmod><changefreq>weekly</changefreq></url>");
        proof {
            let pre = rows@.subrange(0, i as int);
            let cur = rows@.subrange(0, i + 1 as int);
            assert(cur.drop_last() =~= pre);
            assert(cur.last() == rows@[i as int]);
            assert(body@ =~= spec_sitemap_urls(site_base@, cur));
        }
        i = i + 1;
    }
    proof {
        assert(rows@.subrange(0, rows@.len() as int) =~= rows@);
    }
    let mut out =
        "<?xml version=\"1.0\" encoding=\"UTF-8\"?>\n<urlset xmlns=\"http://www.sitemaps.org/schemas/sitemap/0.9\">".to_owned();
    out.append(body.as_str());
    out.append("</urlset>");
    proof {
        assert(out@ =~= spec_sitemap(site_base@, rows@));
    }
    out
}

} // verus!

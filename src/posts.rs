//! Picking a post out of the image board's XML listing.

use vstd::prelude::*;
use crate::track::opt_view;

verus! {

/// Whether `roxmltree::Document::parse` accepts a text.
pub uninterp spec fn xml_parses(text: Seq<char>) -> bool;

/// The nodes of a parsed document in document order, each as its tag name
/// and the value of attribute `attr`, if it has one.
pub uninterp spec fn xml_nodes(text: Seq<char>, attr: Seq<char>) -> Seq<(Seq<char>, Option<Seq<char>>)>;

/// View of a listed node.
pub open spec fn node_view(n: (String, Option<String>)) -> (Seq<char>, Option<Seq<char>>) {
    (n.0@, opt_view(n.1))
}

pub open spec fn nodes_view(v: Seq<(String, Option<String>)>) -> Seq<(Seq<char>, Option<Seq<char>>)> {
    v.map_values(|n: (String, Option<String>)| node_view(n))
}

/// Relies on `roxmltree::Document::parse`, which accepts or refuses a text on
/// the text alone, and on `Node::descendants`, `Node::tag_name` and
/// `Node::attribute`, which list the document's nodes in document order with
/// their tag names and attribute values.
#[verifier::external_body]
fn list_nodes(text: &str, attr: &str) -> (r: Option<Vec<(String, Option<String>)>>)
    ensures
        r is Some <==> xml_parses(text@),
        r matches Some(v) ==> nodes_view(v@) == xml_nodes(text@, attr@),
{
    let doc = roxmltree::Document::parse(text).ok()?;
    let nodes = doc.root().descendants().map(
        |n| (n.tag_name().name().to_string(), n.attribute(attr).map(|a| a.to_string())),
    );
    Some(nodes.collect())
}

/// The attribute values of the `post` nodes, in document order.
pub open spec fn post_links(nodes: Seq<(Seq<char>, Option<Seq<char>>)>) -> Seq<Option<Seq<char>>>
    decreases nodes.len(),
{
    if nodes.len() == 0 {
        Seq::empty()
    } else {
        let rest = post_links(nodes.drop_last());
        if nodes.last().0 == "post"@ {
            rest.push(nodes.last().1)
        } else {
            rest
        }
    }
}

/// The links of the `post` nodes among `nodes`, in order.
pub fn collect_posts(nodes: &Vec<(String, Option<String>)>) -> (r: Vec<Option<String>>)
    ensures
        r@.map_values(|o: Option<String>| opt_view(o)) == post_links(nodes_view(nodes@)),
{
    let post = String::from_str("post");
    let mut out: Vec<Option<String>> = Vec::new();
    let mut i: usize = 0;
    while i < nodes.len()
        invariant
            i <= nodes@.len(),
            post@ == "post"@,
            out@.map_values(|o: Option<String>| opt_view(o)) == post_links(
                nodes_view(nodes@.subrange(0, i as int)),
            ),
        decreases nodes@.len() - i,
    {
        let ghost prefix = nodes_view(nodes@.subrange(0, i as int + 1));
        assert(prefix.drop_last() =~= nodes_view(nodes@.subrange(0, i as int)));
        assert(prefix.last() == node_view(nodes@[i as int]));
        if nodes[i].0 == post {
            let link = crate::session::copy_text(&nodes[i].1);
            out.push(link);
        }
        assert(out@.map_values(|o: Option<String>| opt_view(o)) =~= post_links(prefix));
        i += 1;
    }
    assert(nodes@.subrange(0, nodes@.len() as int) =~= nodes@);
    out
}

/// The link of one post of an XML listing, chosen by `draw` (a random number
/// in use) among all posts: `None` where the text is no XML, there are no
/// posts, or the chosen post has no link.
pub fn pick_post(body: &str, draw: u64) -> (r: Option<String>)
    ensures
        !xml_parses(body@) ==> r is None,
        xml_parses(body@) ==> opt_view(r) == {
            let links = post_links(xml_nodes(body@, "file_url"@));
            if links.len() > 0 {
                links[(draw as int) % (links.len() as int)]
            } else {
                None
            }
        },
{
    let nodes = match list_nodes(body, "file_url") {
        Some(nodes) => nodes,
        None => return None,
    };
    let links = collect_posts(&nodes);
    if links.len() > 0 {
        let choice = (draw % (links.len() as u64)) as usize;
        assert(opt_view(links@[choice as int]) == links@.map_values(
            |o: Option<String>| opt_view(o),
        )[choice as int]);
        crate::session::copy_text(&links[choice])
    } else {
        None
    }
}

} // verus!

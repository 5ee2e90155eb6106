//! What a check of a page reports: its title, description and keywords, how
//! many links and images it has, and its content hash.
use vstd::prelude::*;

use crate::ident::{fresh_id, is_random_uuid};
use crate::text::{decimal, decimal_spec, same_text, trim, trim_spec};

verus! {

/// The kind of difference a page check reports.
#[derive(Debug, Clone, Copy, PartialEq, Eq, Structural)]
pub enum ChangeType {
    Content,
    Structure,
    Metadata,
    Title,
    Links,
    Images,
}

/// The label under which a change type is stored and shown.
pub open spec fn change_type_label(t: ChangeType) -> Seq<char> {
    match t {
        ChangeType::Content => "content"@,
        ChangeType::Structure => "structure"@,
        ChangeType::Metadata => "metadata"@,
        ChangeType::Title => "title"@,
        ChangeType::Links => "links"@,
        ChangeType::Images => "images"@,
    }
}

impl ChangeType {
    /// The lower-case label of this change type.
    pub fn as_str(&self) -> (label: &'static str)
        ensures
            label@ == change_type_label(*self),
    {
        match self {
            ChangeType::Content => "content",
            ChangeType::Structure => "structure",
            ChangeType::Metadata => "metadata",
            ChangeType::Title => "title",
            ChangeType::Links => "links",
            ChangeType::Images => "images",
        }
    }
}

/// One finding of a page check.
#[derive(Debug, Clone)]
pub struct Change {
    pub id: String,
    pub change_type: ChangeType,
    pub old_value: Option<String>,
    pub new_value: Option<String>,
    pub details: Option<String>,
}

/// The characters of an optional string.
pub open spec fn opt_text(o: Option<String>) -> Option<Seq<char>> {
    match o {
        Some(s) => Some(s@),
        None => None,
    }
}

/// A finding without its identifier: the type, the new value and the details
/// (a page check never has an old value).
pub type Finding = (ChangeType, Seq<char>, Seq<char>);

/// Whether `c` is the finding `f` (with no old value).
pub open spec fn change_is(c: Change, f: Finding) -> bool {
    &&& c.change_type == f.0
    &&& c.old_value is None
    &&& opt_text(c.new_value) == Some(f.1)
    &&& opt_text(c.details) == Some(f.2)
}

/// An element of a parsed page, as plain values: its text (all text below it,
/// concatenated) and its attributes as (name, value) pairs.
pub struct PageElement {
    pub text: String,
    pub attributes: Vec<(String, String)>,
}

/// The view of a page element.
pub type ElementView = (Seq<char>, Seq<(Seq<char>, Seq<char>)>);

impl View for PageElement {
    type V = ElementView;

    open spec fn view(&self) -> ElementView {
        (self.text@, self.attributes.deep_view())
    }
}

/// The elements of the HTML document `html` whose tag is `tag`, in document
/// order, each as its text and attributes. Parsing and matching are scraper's.
pub uninterp spec fn selected_elements(html: Seq<char>, tag: Seq<char>) -> Seq<ElementView>;

/// Whether `tag` is a plain element name: lower-case ASCII letters.
pub open spec fn is_tag_name(tag: Seq<char>) -> bool {
    tag.len() > 0 && forall|i: int| 0 <= i < tag.len() ==> 'a' <= #[trigger] tag[i] <= 'z'
}

/// Parses `html` with `scraper::Html::parse_document`, parses `tag` with
/// `scraper::Selector::parse` (a plain lower-case element name is a valid
/// type selector, so this does not fail), and returns what `Html::select`
/// yields, each element converted to its text (`ElementRef::text`, joined)
/// and its attribute list (`Element::attrs`). The contract names the result;
/// what scraper's parser and matcher do is not restated.
#[verifier::external_body]
fn select_elements(html: &str, tag: &str) -> (found: Vec<PageElement>)
    requires
        is_tag_name(tag@),
    ensures
        found@.map_values(|e: PageElement| e@) == selected_elements(html@, tag@),
{
    let document = scraper::Html::parse_document(html);
    let selector = scraper::Selector::parse(tag).unwrap();
    document.select(&selector).map(|e| PageElement {
        text: e.text().collect(),
        attributes: e.value().attrs().map(|(k, v)| (k.to_string(), v.to_string())).collect(),
    }).collect()
}

/// The value of the first attribute named `name`, if any.
pub open spec fn attr_value(attrs: Seq<(Seq<char>, Seq<char>)>, name: Seq<char>) -> Option<
    Seq<char>,
>
    decreases attrs.len(),
{
    if attrs.len() == 0 {
        None
    } else if attrs[0].0 == name {
        Some(attrs[0].1)
    } else {
        attr_value(attrs.drop_first(), name)
    }
}

/// What a `<meta>` element contributes: `"name: content"` when its name is
/// `description` or `keywords` and it has a content attribute.
pub open spec fn meta_entry(attrs: Seq<(Seq<char>, Seq<char>)>) -> Option<Seq<char>> {
    match attr_value(attrs, "name"@) {
        Some(n) => if n == "description"@ || n == "keywords"@ {
            match attr_value(attrs, "content"@) {
                Some(c) => Some(n + ": "@ + c),
                None => None,
            }
        } else {
            None
        },
        None => None,
    }
}

/// The entries of the `<meta>` elements `metas`, in order.
pub open spec fn meta_entries(metas: Seq<ElementView>) -> Seq<Seq<char>>
    decreases metas.len(),
{
    if metas.len() == 0 {
        Seq::empty()
    } else {
        let before = meta_entries(metas.drop_last());
        match meta_entry(metas.last().1) {
            Some(e) => before.push(e),
            None => before,
        }
    }
}

/// `parts` joined with `sep` between neighbours.
pub open spec fn join_spec(parts: Seq<Seq<char>>, sep: Seq<char>) -> Seq<char>
    decreases parts.len(),
{
    if parts.len() == 0 {
        Seq::empty()
    } else if parts.len() == 1 {
        parts[0]
    } else {
        join_spec(parts.drop_last(), sep) + sep + parts.last()
    }
}

/// What a page check finds, from the page's `<title>` and `<meta>` elements,
/// its link and image counts and its content hash: the title (trimmed) if the
/// first title is not blank, the description and keywords if there are any,
/// then always the link count, the image count and the hash.
pub open spec fn page_findings(
    titles: Seq<ElementView>,
    metas: Seq<ElementView>,
    links: nat,
    images: nat,
    hash: Seq<char>,
) -> Seq<Finding> {
    let title_part = if titles.len() > 0 && trim_spec(titles[0].0).len() > 0 {
        seq![(ChangeType::Title, trim_spec(titles[0].0), "Page title detected"@)]
    } else {
        Seq::empty()
    };
    let entries = meta_entries(metas);
    let meta_part = if entries.len() > 0 {
        seq![(ChangeType::Metadata, join_spec(entries, ", "@), "Meta tags detected"@)]
    } else {
        Seq::empty()
    };
    title_part + meta_part + seq![
        (ChangeType::Links, decimal_spec(links), "Link count"@),
        (ChangeType::Images, decimal_spec(images), "Image count"@),
        (ChangeType::Content, hash, "Content hash changed"@),
    ]
}

/// What a check of the HTML text `html` finds.
pub open spec fn html_findings(html: Seq<char>, hash: Seq<char>) -> Seq<Finding> {
    page_findings(
        selected_elements(html, "title"@),
        selected_elements(html, "meta"@),
        selected_elements(html, "a"@).len(),
        selected_elements(html, "img"@).len(),
        hash,
    )
}

fn find_attr<'a>(attrs: &'a Vec<(String, String)>, name: &str) -> (r: Option<&'a String>)
    ensures
        opt_text(
            match r {
                Some(v) => Some(*v),
                None => None,
            },
        ) == attr_value(attrs.deep_view(), name@),
{
    let n = attrs.len();
    let ghost all = attrs.deep_view();
    let mut k: usize = 0;
    assert(all.subrange(0, n as int) =~= all);
    while k < n
        invariant
            n == attrs.len(),
            all == attrs.deep_view(),
            k <= n,
            attr_value(all, name@) == attr_value(all.subrange(k as int, n as int), name@),
        decreases n - k,
    {
        let ghost rest = all.subrange(k as int, n as int);
        assert(rest[0] == all[k as int]);
        if same_text(attrs[k].0.as_str(), name) {
            return Some(&attrs[k].1);
        }
        assert(rest.drop_first() =~= all.subrange(k + 1, n as int));
        k = k + 1;
    }
    None
}

fn meta_entry_of(e: &PageElement) -> (r: Option<String>)
    ensures
        opt_text(r) == meta_entry(e@.1),
{
    let description = "description";
    let keywords = "keywords";
    match find_attr(&e.attributes, "name") {
        Some(n) => {
            if same_text(n.as_str(), description) || same_text(n.as_str(), keywords) {
                match find_attr(&e.attributes, "content") {
                    Some(c) => {
                        let mut s = n.clone();
                        s.append(": ");
                        s.append(c.as_str());
                        Some(s)
                    },
                    None => None,
                }
            } else {
                None
            }
        },
        None => None,
    }
}

fn collect_meta_entries(metas: &Vec<PageElement>) -> (r: Vec<String>)
    ensures
        r@.map_values(|s: String| s@) == meta_entries(metas@.map_values(|e: PageElement| e@)),
{
    let ghost views = metas@.map_values(|e: PageElement| e@);
    let mut r: Vec<String> = Vec::new();
    let n = metas.len();
    let mut k: usize = 0;
    while k < n
        invariant
            n == metas.len(),
            views == metas@.map_values(|e: PageElement| e@),
            k <= n,
            r@.map_values(|s: String| s@) == meta_entries(views.subrange(0, k as int)),
        decreases n - k,
    {
        let entry = meta_entry_of(&metas[k]);
        assert(views.subrange(0, k + 1).drop_last() =~= views.subrange(0, k as int));
        match entry {
            Some(s) => {
                r.push(s);
            },
            None => {},
        }
        assert(r@.map_values(|s: String| s@) =~= meta_entries(views.subrange(0, k + 1)));
        k = k + 1;
    }
    assert(views.subrange(0, n as int) =~= views);
    r
}

fn join(parts: &Vec<String>, sep: &str) -> (r: String)
    ensures
        r@ == join_spec(parts@.map_values(|s: String| s@), sep@),
{
    let ghost views = parts@.map_values(|s: String| s@);
    let mut r = String::new();
    let n = parts.len();
    let mut k: usize = 0;
    while k < n
        invariant
            n == parts.len(),
            views == parts@.map_values(|s: String| s@),
            k <= n,
            r@ == join_spec(views.subrange(0, k as int), sep@),
        decreases n - k,
    {
        assert(views.subrange(0, k + 1).drop_last() =~= views.subrange(0, k as int));
        if k > 0 {
            r.append(sep);
        } else {
            assert(r@ =~= Seq::<char>::empty());
        }
        r.append(parts[k].as_str());
        assert(r@ =~= join_spec(views.subrange(0, k + 1), sep@));
        k = k + 1;
    }
    assert(views.subrange(0, n as int) =~= views);
    r
}

fn finding(change_type: ChangeType, value: String, details: &str, id: &String) -> (c: Change)
    ensures
        c.id == *id,
        change_is(c, (change_type, value@, details@)),
{
    Change {
        id: id.clone(),
        change_type,
        old_value: None,
        new_value: Some(value),
        details: Some(details.to_owned()),
    }
}

/// The findings of a page check from its selected elements: `titles` and
/// `metas` are the page's `<title>` and `<meta>` elements, `link_count` and
/// `image_count` its numbers of `<a>` and `<img>` elements. The findings take
/// their identifiers from `ids`, in order.
pub fn report_page(
    titles: &Vec<PageElement>,
    metas: &Vec<PageElement>,
    link_count: usize,
    image_count: usize,
    new_hash: &str,
    ids: &Vec<String>,
) -> (changes: Vec<Change>)
    requires
        ids.len() >= 5,
    ensures
        ({
            let expected = page_findings(
                titles@.map_values(|e: PageElement| e@),
                metas@.map_values(|e: PageElement| e@),
                link_count as nat,
                image_count as nat,
                new_hash@,
            );
            &&& changes.len() == expected.len()
            &&& forall|i: int|
                0 <= i < changes.len() ==> changes[i].id == ids[i] && #[trigger] change_is(
                    changes[i],
                    expected[i],
                )
        }),
{
    let ghost tviews = titles@.map_values(|e: PageElement| e@);
    let ghost mviews = metas@.map_values(|e: PageElement| e@);
    let mut changes: Vec<Change> = Vec::new();
    let ghost mut expected: Seq<Finding> = Seq::empty();
    if titles.len() > 0 {
        let t = trim(titles[0].text.as_str());
        if t.unicode_len() > 0 {
            let c = finding(ChangeType::Title, t.to_owned(), "Page title detected", &ids[0]);
            changes.push(c);
            proof {
                expected = expected.push((ChangeType::Title, trim_spec(tviews[0].0), "Page title detected"@));
            }
        }
    }
    let ghost title_part = expected;
    let entries = collect_meta_entries(metas);
    if entries.len() > 0 {
        let joined = join(&entries, ", ");
        let c = finding(ChangeType::Metadata, joined, "Meta tags detected", &ids[changes.len()]);
        changes.push(c);
        proof {
            expected = expected.push((ChangeType::Metadata, join_spec(meta_entries(mviews), ", "@), "Meta tags detected"@));
        }
    }
    let c = finding(ChangeType::Links, decimal(link_count as u64), "Link count", &ids[changes.len()]);
    changes.push(c);
    let c = finding(ChangeType::Images, decimal(image_count as u64), "Image count", &ids[changes.len()]);
    changes.push(c);
    let c = finding(ChangeType::Content, new_hash.to_owned(), "Content hash changed", &ids[changes.len()]);
    changes.push(c);
    proof {
        expected = expected.push((ChangeType::Links, decimal_spec(link_count as nat), "Link count"@));
        expected = expected.push((ChangeType::Images, decimal_spec(image_count as nat), "Image count"@));
        expected = expected.push((ChangeType::Content, new_hash@, "Content hash changed"@));
        assert(expected =~= page_findings(tviews, mviews, link_count as nat, image_count as nat, new_hash@));
    }
    changes
}

/// Checks the page `html_content`: its title, its description and keywords,
/// its link and image counts and its content hash `new_hash`, each a finding
/// with a fresh identifier. The previous hash does not enter the findings.
pub fn detect_changes(html_content: &str, _old_hash: &str, new_hash: &str) -> (changes: Vec<Change>)
    ensures
        changes.len() == html_findings(html_content@, new_hash@).len(),
        forall|i: int|
            0 <= i < changes.len() ==> #[trigger] change_is(
                changes[i],
                html_findings(html_content@, new_hash@)[i],
            ),
        forall|i: int| 0 <= i < changes.len() ==> is_random_uuid(#[trigger] changes[i].id@),
        changes.len() >= 3,
        changes[changes.len() - 3].change_type == ChangeType::Links,
        opt_text(changes[changes.len() - 3].new_value) == Some(
            decimal_spec(selected_elements(html_content@, "a"@).len()),
        ),
        changes[changes.len() - 2].change_type == ChangeType::Images,
        opt_text(changes[changes.len() - 2].new_value) == Some(
            decimal_spec(selected_elements(html_content@, "img"@).len()),
        ),
        changes[changes.len() - 1].change_type == ChangeType::Content,
        opt_text(changes[changes.len() - 1].new_value) == Some(new_hash@),
{
    proof {
        reveal_strlit("title");
        reveal_strlit("meta");
        reveal_strlit("a");
        reveal_strlit("img");
    }
    let titles = select_elements(html_content, "title");
    let metas = select_elements(html_content, "meta");
    let links = select_elements(html_content, "a");
    let images = select_elements(html_content, "img");
    let mut ids: Vec<String> = Vec::new();
    let mut k: usize = 0;
    while k < 5
        invariant
            k <= 5,
            ids.len() == k,
            forall|i: int| 0 <= i < k ==> is_random_uuid(#[trigger] ids[i]@),
        decreases 5 - k,
    {
        ids.push(fresh_id());
        k = k + 1;
    }
    assert(links@.map_values(|e: PageElement| e@).len() == links.len());
    assert(images@.map_values(|e: PageElement| e@).len() == images.len());
    let changes = report_page(&titles, &metas, links.len(), images.len(), new_hash, &ids);
    let ghost expected = page_findings(
        titles@.map_values(|e: PageElement| e@),
        metas@.map_values(|e: PageElement| e@),
        links.len() as nat,
        images.len() as nat,
        new_hash@,
    );
    assert(expected == html_findings(html_content@, new_hash@));
    assert forall|i: int| 0 <= i < changes.len() implies is_random_uuid(
        #[trigger] changes[i].id@,
    ) by {
        assert(change_is(changes[i], expected[i]));
        assert(is_random_uuid(ids[i]@));
    }
    proof {
        page_check_counts_anchors_and_images(html_content@, new_hash@);
        let n = changes.len() as int;
        assert(change_is(changes[n - 3], expected[n - 3]));
        assert(change_is(changes[n - 2], expected[n - 2]));
        assert(change_is(changes[n - 1], expected[n - 1]));
    }
    changes
}

/// Every page check reports, last and in this order, the link count, the
/// image count and the content hash; before them at most a title and a
/// metadata finding. A title is reported exactly when the first `<title>` is
/// not blank, and metadata exactly when some `<meta>` gives a description or
/// keywords.
pub proof fn findings_end_with_counts_and_hash(
    titles: Seq<ElementView>,
    metas: Seq<ElementView>,
    links: nat,
    images: nat,
    hash: Seq<char>,
)
    ensures
        ({
            let f = page_findings(titles, metas, links, images, hash);
            let has_title = titles.len() > 0 && trim_spec(titles[0].0).len() > 0;
            let has_meta = meta_entries(metas).len() > 0;
            &&& f.len() == 3 + (if has_title { 1int } else { 0 }) + (if has_meta { 1int } else { 0 })
            &&& f[f.len() - 3] == (ChangeType::Links, decimal_spec(links), "Link count"@)
            &&& f[f.len() - 2] == (ChangeType::Images, decimal_spec(images), "Image count"@)
            &&& f[f.len() - 1] == (ChangeType::Content, hash, "Content hash changed"@)
            &&& (f[0].0 == ChangeType::Title <==> has_title)
            &&& (has_title ==> f[0].1 == trim_spec(titles[0].0))
            &&& (has_meta <==> exists|i: int| 0 <= i < f.len() && #[trigger] f[i].0 == ChangeType::Metadata)
        }),
{
    let f = page_findings(titles, metas, links, images, hash);
    let has_title = titles.len() > 0 && trim_spec(titles[0].0).len() > 0;
    let has_meta = meta_entries(metas).len() > 0;
    if has_meta {
        let i = if has_title { 1int } else { 0 };
        assert(f[i].0 == ChangeType::Metadata);
    }
}

/// Different change types have different labels.
pub proof fn change_type_labels_differ(a: ChangeType, b: ChangeType)
    ensures
        change_type_label(a) == change_type_label(b) ==> a == b,
{
    reveal_strlit("content");
    reveal_strlit("structure");
    reveal_strlit("metadata");
    reveal_strlit("title");
    reveal_strlit("links");
    reveal_strlit("images");
    if change_type_label(a) == change_type_label(b) && a != b {
        let la = change_type_label(a);
        let lb = change_type_label(b);
        assert(la.len() != lb.len() || la[0] != lb[0] || la[1] != lb[1]);
    }
}

/// A check of the HTML text `html` reports, last and in this order, the
/// number of the page's `<a>` elements, the number of its `<img>` elements,
/// and the hash `h`; it starts with the trimmed text of the first `<title>`
/// exactly when that text is not blank.
pub proof fn page_check_counts_anchors_and_images(html: Seq<char>, h: Seq<char>)
    ensures
        ({
            let f = html_findings(html, h);
            let t = selected_elements(html, "title"@);
            let titled = t.len() > 0 && trim_spec(t[0].0).len() > 0;
            let entries = meta_entries(selected_elements(html, "meta"@));
            &&& f.len() >= 3
            &&& f[f.len() - 3] == (
                ChangeType::Links,
                decimal_spec(selected_elements(html, "a"@).len()),
                "Link count"@,
            )
            &&& f[f.len() - 2] == (
                ChangeType::Images,
                decimal_spec(selected_elements(html, "img"@).len()),
                "Image count"@,
            )
            &&& f[f.len() - 1] == (ChangeType::Content, h, "Content hash changed"@)
            &&& (titled ==> f[0] == (ChangeType::Title, trim_spec(t[0].0), "Page title detected"@))
            &&& (!titled ==> f[0].0 != ChangeType::Title)
            &&& (entries.len() > 0 ==> f[f.len() - 4] == (
                ChangeType::Metadata,
                join_spec(entries, ", "@),
                "Meta tags detected"@,
            ))
            &&& (entries.len() == 0 ==> forall|i: int|
                0 <= i < f.len() ==> (#[trigger] f[i]).0 != ChangeType::Metadata)
            &&& f.len() == 3 + (if titled { 1int } else { 0 }) + (if entries.len() > 0 { 1int } else { 0 })
        }),
{
    findings_end_with_counts_and_hash(
        selected_elements(html, "title"@),
        selected_elements(html, "meta"@),
        selected_elements(html, "a"@).len(),
        selected_elements(html, "img"@).len(),
        h,
    );
}

/// The value of an attribute is that of the first attribute with its name,
/// and there is none exactly when no attribute has the name.
pub proof fn attribute_lookup_finds_first(attrs: Seq<(Seq<char>, Seq<char>)>, name: Seq<char>)
    ensures
        (attr_value(attrs, name) is None) <==> (forall|i: int|
            0 <= i < attrs.len() ==> (#[trigger] attrs[i]).0 != name),
        attr_value(attrs, name) matches Some(v) ==> exists|i: int|
            0 <= i < attrs.len() && #[trigger] attrs[i] == (name, v) && forall|j: int|
                0 <= j < i ==> (#[trigger] attrs[j]).0 != name,
    decreases attrs.len(),
{
    if attrs.len() > 0 {
        attribute_lookup_finds_first(attrs.drop_first(), name);
        if attrs[0].0 == name {
            assert(attrs[0] == (name, attrs[0].1));
        } else {
            assert forall|i: int| 1 <= i < attrs.len() implies attrs[i] == attrs.drop_first()[i - 1] by {}
            if attr_value(attrs, name) is None {
                assert forall|i: int| 0 <= i < attrs.len() implies (#[trigger] attrs[i]).0 != name by {
                    if i > 0 {
                        assert(attrs.drop_first()[i - 1] == attrs[i]);
                    }
                }
            } else {
                let v = attr_value(attrs, name)->Some_0;
                let k = choose|k: int|
                    0 <= k < attrs.drop_first().len() && #[trigger] attrs.drop_first()[k] == (name, v)
                        && forall|j: int| 0 <= j < k ==> (#[trigger] attrs.drop_first()[j]).0 != name;
                assert(attrs[k + 1] == (name, v));
                assert forall|j: int| 0 <= j < k + 1 implies (#[trigger] attrs[j]).0 != name by {
                    if j > 0 {
                        assert(attrs.drop_first()[j - 1] == attrs[j]);
                    }
                }
            }
        }
    }
}

/// Joining puts `sep` between neighbouring parts and nowhere else: the
/// first part, then each further part preceded by `sep`.
pub proof fn join_puts_separator_between_parts(parts: Seq<Seq<char>>, sep: Seq<char>)
    ensures
        parts.len() == 0 ==> join_spec(parts, sep) == Seq::<char>::empty(),
        parts.len() > 0 ==> join_spec(parts, sep) == parts[0] + parts.drop_first().map_values(
            |p: Seq<char>| sep + p,
        ).flatten(),
    decreases parts.len(),
{
    let g = |p: Seq<char>| sep + p;
    if parts.len() == 1 {
        assert(parts.drop_first().map_values(g) =~= Seq::<Seq<char>>::empty());
        assert(parts[0] + Seq::<char>::empty() =~= parts[0]);
    } else if parts.len() > 1 {
        join_puts_separator_between_parts(parts.drop_last(), sep);
        let rest = parts.drop_first().map_values(g);
        rest.lemma_flatten_and_flatten_alt_are_equivalent();
        parts.drop_last().drop_first().map_values(g).lemma_flatten_and_flatten_alt_are_equivalent();
        assert(rest.drop_last() =~= parts.drop_last().drop_first().map_values(g));
        assert(rest.last() == sep + parts.last());
        assert(parts.drop_last()[0] == parts[0]);
        assert(join_spec(parts, sep) == join_spec(parts.drop_last(), sep) + sep + parts.last());
        assert(join_spec(parts, sep) =~= parts[0] + rest.flatten());
    }
}

/// The metadata entries are those of the `<meta>` elements, in order: an
/// element gives `"name: content"` when its first `name` attribute is
/// `description` or `keywords` and it has a `content` attribute, and nothing
/// otherwise.
pub proof fn meta_entries_follow_the_elements(metas: Seq<ElementView>)
    ensures
        meta_entries(metas) == metas.map_values(
            |e: ElementView|
                match attr_value(e.1, "name"@) {
                    Some(n) => if n == "description"@ || n == "keywords"@ {
                        match attr_value(e.1, "content"@) {
                            Some(c) => seq![n + ": "@ + c],
                            None => Seq::<Seq<char>>::empty(),
                        }
                    } else {
                        Seq::<Seq<char>>::empty()
                    },
                    None => Seq::<Seq<char>>::empty(),
                },
        ).flatten(),
    decreases metas.len(),
{
    let f = |e: ElementView|
        match attr_value(e.1, "name"@) {
            Some(n) => if n == "description"@ || n == "keywords"@ {
                match attr_value(e.1, "content"@) {
                    Some(c) => seq![n + ": "@ + c],
                    None => Seq::<Seq<char>>::empty(),
                }
            } else {
                Seq::<Seq<char>>::empty()
            },
            None => Seq::<Seq<char>>::empty(),
        };
    metas.map_values(f).lemma_flatten_and_flatten_alt_are_equivalent();
    if metas.len() > 0 {
        meta_entries_follow_the_elements(metas.drop_last());
        metas.drop_last().map_values(f).lemma_flatten_and_flatten_alt_are_equivalent();
        assert(metas.map_values(f).drop_last() =~= metas.drop_last().map_values(f));
        let before = meta_entries(metas.drop_last());
        match meta_entry(metas.last().1) {
            Some(x) => {
                assert(f(metas.last()) == seq![x]);
                assert(meta_entries(metas) =~= before + seq![x]);
            },
            None => {
                assert(f(metas.last()) =~= Seq::<Seq<char>>::empty());
                assert(meta_entries(metas) =~= before + Seq::<Seq<char>>::empty());
            },
        }
    } else {
        assert(metas.map_values(f) =~= Seq::<Seq<Seq<char>>>::empty());
    }
}

/// A change is a finding when it has the finding's type, no old value, the
/// finding's value as its new value and the finding's details.
pub proof fn change_matches_finding(c: Change, f: Finding)
    ensures
        change_is(c, f) <==> (c.change_type == f.0 && c.old_value is None && (c.new_value matches Some(v)
            && v@ == f.1) && (c.details matches Some(d) && d@ == f.2)),
{
}

} // verus!

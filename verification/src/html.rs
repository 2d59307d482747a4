//! The small pieces of HTML that the routes write themselves: escaped text and option
//! lists.

use vstd::prelude::*;
use vstd::string::*;

use crate::text;
use crate::text::{chars_of, id_text, same_text, trim};

verus! {

/// One character as HTML text.
pub open spec fn escaped_char(c: char) -> Seq<char> {
    if c == '&' {
        "&amp;"@
    } else if c == '<' {
        "&lt;"@
    } else if c == '>' {
        "&gt;"@
    } else if c == '"' {
        "&quot;"@
    } else {
        seq![c]
    }
}

/// A text as HTML text, character by character.
pub open spec fn escaped(s: Seq<char>) -> Seq<char>
    decreases s.len(),
{
    if s.len() == 0 {
        Seq::empty()
    } else {
        escaped_char(s[0]) + escaped(s.drop_first())
    }
}

/// The text with `&`, `<`, `>` and `"` written as character references, so that it
/// reaches the reader as text.
pub fn html_escape(s: &str) -> (out: String)
    ensures
        out@ == escaped(s@),
{
    let chars = chars_of(s);
    let mut out = String::new();
    let mut i: usize = 0;
    proof {
        assert(s@.skip(0) =~= s@);
        assert(out@ + escaped(s@.skip(0)) =~= escaped(s@));
    }
    while i < chars.len()
        invariant
            i <= chars.len(),
            chars@ == s@,
            out@ + escaped(s@.skip(i as int)) == escaped(s@),
        decreases chars.len() - i,
    {
        let c = chars[i];
        let ghost before = out@;
        if c == '&' {
            out.append("&amp;");
        } else if c == '<' {
            out.append("&lt;");
        } else if c == '>' {
            out.append("&gt;");
        } else if c == '"' {
            out.append("&quot;");
        } else {
            out.push(c);
        }
        proof {
            assert(out@ =~= before + escaped_char(c));
            assert(s@.skip(i as int).drop_first() =~= s@.skip(i + 1));
            assert(s@.skip(i as int)[0] == c);
            assert(before + (escaped_char(c) + escaped(s@.skip(i + 1))) =~= (before + escaped_char(
                c,
            )) + escaped(s@.skip(i + 1)));
        }
        i = i + 1;
    }
    proof {
        assert(escaped(s@.skip(i as int)) =~= Seq::empty());
        assert(out@ + Seq::<char>::empty() =~= out@);
    }
    out
}

/// A choice of an option list: its value and its text.
pub struct OptionItem {
    pub id: i64,
    pub name: String,
}

/// One `<option>`, with the text as it is.
pub open spec fn option_html(value: Seq<char>, label: Seq<char>) -> Seq<char> {
    "<option value=\""@ + value + "\">"@ + label + "</option>"@
}

/// The `<option>`s of the items, one after the other.
pub open spec fn options_html(items: Seq<OptionItem>) -> Seq<char>
    decreases items.len(),
{
    if items.len() == 0 {
        Seq::empty()
    } else {
        options_html(items.drop_last()) + option_html(
            text::int_text(items.last().id as int),
            escaped(items.last().name@),
        )
    }
}

/// What the empty choice of the category list says: the caller's own words, the
/// locale's word for no category, or else the one for all of them.
pub open spec fn empty_choice(
    empty: Option<String>,
    no_category: Seq<char>,
    all_categories: Seq<char>,
) -> Seq<char> {
    match empty {
        Some(label) => if text::trimmed(label@) == "none"@ {
            no_category
        } else if text::trimmed(label@).len() > 0 {
            text::trimmed(label@)
        } else {
            all_categories
        },
        None => all_categories,
    }
}

/// The category list: the empty choice, then every category.
pub fn category_options(
    categories: &[OptionItem],
    empty: &Option<String>,
    no_category: &str,
    all_categories: &str,
) -> (html: String)
    ensures
        html@ == option_html(
            Seq::empty(),
            escaped(empty_choice(*empty, no_category@, all_categories@)),
        ) + options_html(categories@),
{
    let label: &str = match empty {
        Some(given) => {
            let t = trim(given.as_str());
            if same_text(t, "none") {
                no_category
            } else if !t.is_empty() {
                t
            } else {
                all_categories
            }
        },
        None => all_categories,
    };
    let mut html = String::new();
    html.append("<option value=\"");
    html.append("\">");
    html.append(html_escape(label).as_str());
    html.append("</option>");
    let ghost head = option_html(
        Seq::empty(),
        escaped(empty_choice(*empty, no_category@, all_categories@)),
    );
    proof {
        assert(html@ =~= head);
    }
    let mut i: usize = 0;
    proof {
        assert(options_html(categories@.take(0)) =~= Seq::empty());
        assert(html@ =~= head + options_html(categories@.take(0)));
    }
    while i < categories.len()
        invariant
            i <= categories.len(),
            html@ == head + options_html(categories@.take(i as int)),
        decreases categories.len() - i,
    {
        let item = &categories[i];
        html.append("<option value=\"");
        html.append(id_text(item.id).as_str());
        html.append("\">");
        html.append(html_escape(item.name.as_str()).as_str());
        html.append("</option>");
        i = i + 1;
        proof {
            assert(categories@.take(i as int).drop_last() =~= categories@.take(i - 1));
            assert(html@ =~= head + options_html(categories@.take(i as int)));
        }
    }
    proof {
        assert(categories@.take(i as int) =~= categories@);
    }
    html
}

/// A product in the option list of products.
pub struct ProductItem {
    pub id: i64,
    pub sku: String,
    pub name: String,
}

/// What the product list says of a product.
pub open spec fn product_label(product: ProductItem) -> Seq<char> {
    escaped(product.sku@) + " — "@ + escaped(product.name@)
}

/// The `<option>`s of the products, one after the other.
pub open spec fn product_options_html(products: Seq<ProductItem>) -> Seq<char>
    decreases products.len(),
{
    if products.len() == 0 {
        Seq::empty()
    } else {
        product_options_html(products.drop_last()) + option_html(
            text::int_text(products.last().id as int),
            product_label(products.last()),
        )
    }
}

/// The product list.
pub fn product_options(products: &[ProductItem]) -> (html: String)
    ensures
        html@ == product_options_html(products@),
{
    let mut html = String::new();
    let mut i: usize = 0;
    while i < products.len()
        invariant
            i <= products.len(),
            html@ == product_options_html(products@.take(i as int)),
        decreases products.len() - i,
    {
        let product = &products[i];
        html.append("<option value=\"");
        html.append(id_text(product.id).as_str());
        html.append("\">");
        html.append(html_escape(product.sku.as_str()).as_str());
        html.append(" — ");
        html.append(html_escape(product.name.as_str()).as_str());
        html.append("</option>");
        i = i + 1;
        proof {
            assert(products@.take(i as int).drop_last() =~= products@.take(i - 1));
            assert(html@ =~= product_options_html(products@.take(i as int)));
        }
    }
    proof {
        assert(products@.take(i as int) =~= products@);
    }
    html
}

/// Whether a text holds a character that HTML would take for markup.
pub open spec fn has_markup(s: Seq<char>) -> bool {
    s.contains('<') || s.contains('>') || s.contains('"')
}

proof fn lemma_escaped_char(c: char)
    ensures
        !has_markup(escaped_char(c)),
        escaped_char(c).len() > 0,
        escaped_char(c)[0] == '&' <==> (c == '&' || c == '<' || c == '>' || c == '"'),
        escaped_char(c)[0] != '&' ==> escaped_char(c) == seq![c],
        c == '&' ==> escaped_char(c) == seq!['&', 'a', 'm', 'p', ';'],
        c == '<' ==> escaped_char(c) == seq!['&', 'l', 't', ';'],
        c == '>' ==> escaped_char(c) == seq!['&', 'g', 't', ';'],
        c == '"' ==> escaped_char(c) == seq!['&', 'q', 'u', 'o', 't', ';'],
{
    reveal_strlit("&amp;");
    reveal_strlit("&lt;");
    reveal_strlit("&gt;");
    reveal_strlit("&quot;");
    assert("&amp;"@ =~= seq!['&', 'a', 'm', 'p', ';']);
    assert("&lt;"@ =~= seq!['&', 'l', 't', ';']);
    assert("&gt;"@ =~= seq!['&', 'g', 't', ';']);
    assert("&quot;"@ =~= seq!['&', 'q', 'u', 'o', 't', ';']);
}

/// Escaped text holds no markup, whatever the text was.
pub proof fn escaped_text_has_no_markup(s: Seq<char>)
    ensures
        !has_markup(escaped(s)),
    decreases s.len(),
{
    if s.len() > 0 {
        let head = escaped_char(s[0]);
        let tail = escaped(s.drop_first());
        lemma_escaped_char(s[0]);
        escaped_text_has_no_markup(s.drop_first());
        assert forall|c: char| (head + tail).contains(c) implies head.contains(c)
            || tail.contains(c) by {
            let k = (head + tail).index_of(c);
            if k < head.len() {
                assert(head[k] == c);
            } else {
                assert(tail[k - head.len()] == c);
            }
        }
    }
}

/// Escaping loses nothing: two texts that escape to the same HTML are the same text.
pub proof fn escaping_loses_nothing(a: Seq<char>, b: Seq<char>)
    requires
        escaped(a) == escaped(b),
    ensures
        a == b,
    decreases a.len(),
{
    if a.len() > 0 && b.len() > 0 {
        let x = a[0];
        let y = b[0];
        lemma_escaped_char(x);
        lemma_escaped_char(y);
        let ra = escaped(a.drop_first());
        let rb = escaped(b.drop_first());
        let ea = escaped(a);
        let eb = escaped(b);
        assert(ea[0] == escaped_char(x)[0]);
        assert(eb[0] == escaped_char(y)[0]);
        if escaped_char(x)[0] == '&' {
            assert(ea[1] == escaped_char(x)[1]);
            assert(eb[1] == escaped_char(y)[1]);
        }
        assert(x == y);
        let n = escaped_char(x).len() as int;
        assert(ra =~= ea.subrange(n, ea.len() as int));
        assert(rb =~= eb.subrange(n, eb.len() as int));
        escaping_loses_nothing(a.drop_first(), b.drop_first());
        assert(a =~= seq![x] + a.drop_first());
        assert(b =~= seq![y] + b.drop_first());
    } else if a.len() > 0 {
        lemma_escaped_char(a[0]);
        assert(escaped(a).len() > 0);
    } else if b.len() > 0 {
        lemma_escaped_char(b[0]);
        assert(escaped(b).len() > 0);
    } else {
        assert(a =~= b);
    }
}

/// Text without any of the four characters is left as it is.
pub proof fn plain_text_is_kept(s: Seq<char>)
    requires
        !has_markup(s),
        !s.contains('&'),
    ensures
        escaped(s) == s,
    decreases s.len(),
{
    if s.len() > 0 {
        assert(s.contains(s[0]));
        let rest = s.drop_first();
        assert forall|c: char| rest.contains(c) implies s.contains(c) by {
            let k = rest.index_of(c);
            assert(s[k + 1] == c);
        }
        plain_text_is_kept(rest);
        assert(seq![s[0]] + rest =~= s);
    } else {
        assert(escaped(s) =~= s);
    }
}

proof fn lemma_escaped_add(a: Seq<char>, b: Seq<char>)
    ensures
        escaped(a + b) == escaped(a) + escaped(b),
    decreases a.len(),
{
    if a.len() == 0 {
        assert(a + b =~= b);
        assert(escaped(a) + escaped(b) =~= escaped(b));
    } else {
        assert((a + b)[0] == a[0]);
        assert((a + b).drop_first() =~= a.drop_first() + b);
        lemma_escaped_add(a.drop_first(), b);
        assert(escaped_char(a[0]) + (escaped(a.drop_first()) + escaped(b)) =~= (escaped_char(a[0])
            + escaped(a.drop_first())) + escaped(b));
    }
}

/// Each character is escaped on its own: the ampersand, the two angle brackets and the
/// double quote by their references, and any other as it is.
pub proof fn characters_are_escaped_one_by_one(a: Seq<char>, c: char, b: Seq<char>)
    ensures
        escaped(a + b) == escaped(a) + escaped(b),
        escaped(Seq::empty()).len() == 0,
        c == '&' ==> escaped(seq![c]) == "&amp;"@,
        c == '<' ==> escaped(seq![c]) == "&lt;"@,
        c == '>' ==> escaped(seq![c]) == "&gt;"@,
        c == '"' ==> escaped(seq![c]) == "&quot;"@,
        c != '&' && c != '<' && c != '>' && c != '"' ==> escaped(seq![c]) == seq![c],
{
    lemma_escaped_add(a, b);
    let one = seq![c];
    let none = Seq::<char>::empty();
    assert(one.drop_first() =~= none);
    assert(escaped(none) =~= none);
    assert(escaped(one) == escaped_char(c) + escaped(one.drop_first()));
    assert(escaped(one) =~= escaped_char(c));
}

/// The category list starts with the empty choice, which has no value: under the locale's
/// word for none where it is asked for by that name, under any other words of the caller,
/// and under the locale's word for all where the caller has none.
pub proof fn category_lists_start_with_the_empty_choice(
    categories: &[OptionItem],
    empty: &Option<String>,
    no_category: &str,
    all_categories: &str,
    html: String,
)
    requires
        call_ensures(category_options, (categories, empty, no_category, all_categories), html),
    ensures
        ({
            let words = if empty is None || text::trimmed(empty->0@).len() == 0 {
                all_categories@
            } else if text::trimmed(empty->0@) == "none"@ {
                no_category@
            } else {
                text::trimmed(empty->0@)
            };
            html@ == "<option value=\""@ + Seq::empty() + "\">"@ + escaped(words) + "</option>"@
                + options_html(categories@)
        }),
{
    reveal_strlit("none");
    assert("none"@.len() == 4);
}

/// Each category and each product is one choice, in their order: its id as the value, and
/// its name as text, for a product behind the SKU.
pub proof fn each_item_is_one_choice(
    items: Seq<OptionItem>,
    item: OptionItem,
    products: Seq<ProductItem>,
    product: ProductItem,
)
    ensures
        options_html(Seq::empty()).len() == 0,
        options_html(items.push(item)) == options_html(items) + ("<option value=\""@
            + text::int_text(item.id as int) + "\">"@ + escaped(item.name@) + "</option>"@),
        product_options_html(Seq::empty()).len() == 0,
        product_options_html(products.push(product)) == product_options_html(products) + (
        "<option value=\""@ + text::int_text(product.id as int) + "\">"@ + (escaped(product.sku@)
            + " — "@ + escaped(product.name@)) + "</option>"@),
{
    assert(items.push(item).drop_last() =~= items);
    assert(products.push(product).drop_last() =~= products);
}

} // verus!
